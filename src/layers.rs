//! Required layer names: their NUL-terminated storage, the borrowed views
//! handed to the driver, and the check against the driver's supported layers.
use crate::error::StartupError;
use vstd::prelude::*;
use vstd::slice::slice_to_vec;
use vstd::string::StringSliceAdditionalSpecFns;

verus! {

/// The Khronos validation layer, the one layer a debug build requires.
pub const KHRONOS_VALIDATION_LAYER: &'static str = "VK_LAYER_KHRONOS_validation";

/// No byte of `s` is NUL.
pub open spec fn no_nul(s: Seq<u8>) -> bool {
    forall|i: int| 0 <= i < s.len() ==> s[i] != 0u8
}

/// `s` followed by a terminating NUL.
pub open spec fn c_string(s: Seq<u8>) -> Seq<u8> {
    s.push(0u8)
}

/// The NUL-terminated UTF-8 bytes of each name, in order.
pub open spec fn c_strings(names: Seq<&str>) -> Seq<Seq<u8>> {
    names.map_values(|n: &str| c_string(n.spec_bytes()))
}

/// The bytes of each buffer, in order.
pub open spec fn buffer_views(bufs: Seq<Vec<u8>>) -> Seq<Seq<u8>> {
    bufs.map_values(|b: Vec<u8>| b@)
}

/// Every name can be stored as a C string.
pub open spec fn names_storable(names: Seq<&str>) -> bool {
    forall|i: int| 0 <= i < names.len() ==> no_nul(#[trigger] names[i].spec_bytes())
}

/// A fixed-size name buffer reported by the driver holds exactly `name`:
/// the buffer starts with `name`, which has no NUL, and either ends there or
/// continues with a NUL.
pub open spec fn buffer_holds(buf: Seq<u8>, name: Seq<u8>) -> bool {
    &&& no_nul(name)
    &&& name.len() <= buf.len()
    &&& buf.take(name.len() as int) == name
    &&& (buf.len() == name.len() || buf[name.len() as int] == 0u8)
}

/// Some supported layer buffer holds `name`.
pub open spec fn layer_supported(name: Seq<u8>, supported: Seq<Seq<u8>>) -> bool {
    exists|j: int| 0 <= j < supported.len() && buffer_holds(#[trigger] supported[j], name)
}

/// Every required layer is among the supported ones.
pub open spec fn all_layers_supported(required: Seq<&str>, supported: Seq<Seq<u8>>) -> bool {
    forall|i: int|
        0 <= i < required.len() ==> layer_supported(#[trigger] required[i].spec_bytes(), supported)
}

/// `required[i]` is the first required layer that is not supported.
pub open spec fn first_unsupported(required: Seq<&str>, supported: Seq<Seq<u8>>, i: int) -> bool {
    &&& 0 <= i < required.len()
    &&& !layer_supported(required[i].spec_bytes(), supported)
    &&& forall|k: int|
        0 <= k < i ==> layer_supported(#[trigger] required[k].spec_bytes(), supported)
}

/// Owned, NUL-terminated storage for a list of layer names.
pub struct LayerNameTable {
    names: Vec<Vec<u8>>,
}

impl View for LayerNameTable {
    type V = Seq<Seq<u8>>;

    closed spec fn view(&self) -> Seq<Seq<u8>> {
        buffer_views(self.names@)
    }
}

impl LayerNameTable {
    /// A table with no names.
    pub fn empty() -> (r: LayerNameTable)
        ensures
            r@ == Seq::<Seq<u8>>::empty(),
    {
        let r = LayerNameTable { names: Vec::new() };
        assert(r@ =~= Seq::<Seq<u8>>::empty());
        r
    }

    /// The number of names.
    pub fn len(&self) -> (r: usize)
        ensures
            r == self@.len(),
    {
        self.names.len()
    }

    /// One view per stored name, in order, each over the name's own bytes
    /// (terminating NUL included). The views borrow the table, so the storage
    /// outlives every use of them.
    pub fn pointers(&self) -> (r: Vec<&[u8]>)
        ensures
            r@.len() == self@.len(),
            forall|i: int| 0 <= i < r@.len() ==> (#[trigger] r@[i])@ == self@[i],
    {
        let mut r: Vec<&[u8]> = Vec::new();
        let mut i: usize = 0;
        while i < self.names.len()
            invariant
                i <= self.names@.len(),
                r@.len() == i,
                forall|k: int| 0 <= k < i ==> (#[trigger] r@[k])@ == self@[k],
            decreases self.names@.len() - i,
        {
            r.push(self.names[i].as_slice());
            i += 1;
        }
        r
    }
}

/// Builds the NUL-terminated storage for `required`, one entry per name in
/// the same order; its `pointers` are the table handed to the driver.
pub fn get_layer_names_and_pointers(required: &[&str]) -> (r: LayerNameTable)
    requires
        names_storable(required@),
    ensures
        r@ == c_strings(required@),
        r@.len() == required@.len(),
{
    let mut names: Vec<Vec<u8>> = Vec::new();
    let mut i: usize = 0;
    while i < required.len()
        invariant
            i <= required@.len(),
            names@.len() == i,
            forall|k: int|
                0 <= k < i ==> (#[trigger] names@[k])@ == c_string(required@[k].spec_bytes()),
        decreases required@.len() - i,
    {
        let mut name = slice_to_vec(required[i].as_bytes());
        name.push(0u8);
        names.push(name);
        i += 1;
    }
    assert(buffer_views(names@) =~= c_strings(required@));
    LayerNameTable { names }
}

/// Whether no byte of `s` is NUL.
pub(crate) fn is_nul_free(s: &[u8]) -> (r: bool)
    ensures
        r == no_nul(s@),
{
    let mut i: usize = 0;
    while i < s.len()
        invariant
            i <= s@.len(),
            forall|k: int| 0 <= k < i ==> s@[k] != 0u8,
        decreases s@.len() - i,
    {
        if s[i] == 0u8 {
            return false;
        }
        i += 1;
    }
    true
}

/// Whether every name can be stored as a C string.
pub(crate) fn all_names_storable(names: &[&str]) -> (r: bool)
    ensures
        r == names_storable(names@),
{
    let mut i: usize = 0;
    while i < names.len()
        invariant
            i <= names@.len(),
            forall|k: int| 0 <= k < i ==> no_nul(#[trigger] names@[k].spec_bytes()),
        decreases names@.len() - i,
    {
        if !is_nul_free(names[i].as_bytes()) {
            return false;
        }
        i += 1;
    }
    true
}

/// Whether the buffer `buf` holds exactly `name`.
fn buffer_holds_name(buf: &Vec<u8>, name: &[u8]) -> (r: bool)
    ensures
        r == buffer_holds(buf@, name@),
{
    if name.len() > buf.len() {
        return false;
    }
    let mut i: usize = 0;
    while i < name.len()
        invariant
            i <= name@.len() <= buf@.len(),
            forall|k: int| 0 <= k < i ==> name@[k] != 0u8 && buf@[k] == name@[k],
        decreases name@.len() - i,
    {
        if name[i] == 0u8 {
            return false;
        }
        if buf[i] != name[i] {
            assert(buf@.take(name@.len() as int)[i as int] != name@[i as int]);
            return false;
        }
        i += 1;
    }
    assert(buf@.take(name@.len() as int) =~= name@);
    name.len() == buf.len() || buf[name.len()] == 0u8
}

/// Whether some supported layer buffer holds exactly `name`; stops at the
/// first match.
fn is_layer_supported(name: &[u8], supported: &Vec<Vec<u8>>) -> (r: bool)
    ensures
        r == layer_supported(name@, buffer_views(supported@)),
{
    let mut j: usize = 0;
    while j < supported.len()
        invariant
            j <= supported@.len(),
            forall|k: int| 0 <= k < j ==> !buffer_holds(#[trigger] buffer_views(supported@)[k], name@),
        decreases supported@.len() - j,
    {
        if buffer_holds_name(&supported[j], name) {
            assert(buffer_holds(buffer_views(supported@)[j as int], name@));
            return true;
        }
        j += 1;
    }
    false
}

/// Checks that every required layer appears, by exact byte match, among the
/// name buffers that the driver reported. Fails on the first missing one.
pub fn check_validation_layer_support(required: &[&str], supported: &Vec<Vec<u8>>) -> (r: Result<(), StartupError>)
    ensures
        r is Ok <==> all_layers_supported(required@, buffer_views(supported@)),
        r is Err ==> exists|i: int|
            first_unsupported(required@, buffer_views(supported@), i) && r->Err_0 is LayerUnsupported
                && r->Err_0->name@ == required@[i]@,
{
    let mut i: usize = 0;
    while i < required.len()
        invariant
            i <= required@.len(),
            forall|k: int|
                0 <= k < i ==> layer_supported(
                    #[trigger] required@[k].spec_bytes(),
                    buffer_views(supported@),
                ),
        decreases required@.len() - i,
    {
        if !is_layer_supported(required[i].as_bytes(), supported) {
            let name = required[i].to_owned();
            assert(first_unsupported(required@, buffer_views(supported@), i as int));
            return Err(StartupError::LayerUnsupported { name });
        }
        i += 1;
    }
    Ok(())
}

} // verus!

verus! {

/// Alignment of the name table: for any list of required names, the stored
/// names and the views handed out are as many as the required names, and the
/// view at each index covers exactly the stored bytes of the name at that index.
pub proof fn layer_pointers_align(required: Seq<&str>, table: LayerNameTable, pointers: Seq<&[u8]>)
    requires
        table@ == c_strings(required),
        pointers.len() == table@.len(),
        forall|i: int| 0 <= i < pointers.len() ==> (#[trigger] pointers[i])@ == table@[i],
    ensures
        table@.len() == required.len(),
        pointers.len() == required.len(),
        forall|i: int|
            0 <= i < pointers.len() ==> (#[trigger] pointers[i])@ == table@[i] && table@[i]
                == c_string(required[i].spec_bytes()),
{
}

/// A supported-layer list that holds the C string of every required name
/// passes the layer check.
pub proof fn listed_layers_are_supported(required: Seq<&str>, supported: Seq<Seq<u8>>)
    requires
        names_storable(required),
        forall|i: int|
            0 <= i < required.len() ==> supported.contains(c_string(#[trigger] required[i].spec_bytes())),
    ensures
        all_layers_supported(required, supported),
{
    assert forall|i: int| 0 <= i < required.len() implies layer_supported(
        #[trigger] required[i].spec_bytes(),
        supported,
    ) by {
        let name = required[i].spec_bytes();
        assert(supported.contains(c_string(name)));
        let j = choose|j: int| 0 <= j < supported.len() && supported[j] == c_string(name);
        assert(no_nul(name));
        assert(supported[j].take(name.len() as int) =~= name);
        assert(buffer_holds(supported[j], name));
    }
}

/// A required name that no supported buffer holds makes the layer check fail.
pub proof fn missing_layer_fails_check(required: Seq<&str>, supported: Seq<Seq<u8>>, i: int)
    requires
        0 <= i < required.len(),
        forall|j: int| 0 <= j < supported.len() ==> !buffer_holds(#[trigger] supported[j], required[i].spec_bytes()),
    ensures
        !all_layers_supported(required, supported),
{
    assert(!layer_supported(required[i].spec_bytes(), supported));
}

} // verus!
