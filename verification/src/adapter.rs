//! Lists of the network adapters of this machine, held for a foreign caller.
use vstd::prelude::*;
use vstd::utf8::*;
use crate::cstr::{c_string_of, is_c_string, is_nul_free, nul_free, to_c_string};
use crate::handle::HandleTable;

verus! {

/// A network adapter, known by its name and its description. Neither text
/// holds a nul character, so each can be handed out as a C string.
#[derive(Debug)]
pub struct EthernetAdapter {
    name: String,
    desc: String,
}

impl EthernetAdapter {
    /// Whether both texts can be handed out as C strings. Every adapter that
    /// running code holds is well formed.
    pub closed spec fn wf(&self) -> bool {
        nul_free(encode_utf8(self.name@)) && nul_free(encode_utf8(self.desc@))
    }

    #[verifier::type_invariant]
    spec fn well_formed(self) -> bool {
        self.wf()
    }

    /// The adapter's name.
    pub closed spec fn name_text(&self) -> Seq<char> {
        self.name@
    }

    /// The adapter's description.
    pub closed spec fn desc_text(&self) -> Seq<char> {
        self.desc@
    }

    /// Makes an adapter of a name and a description. There is none for a text
    /// that holds a nul character.
    pub fn new(name: String, desc: String) -> (adapter: Option<EthernetAdapter>)
        ensures
            adapter is Some <==> nul_free(encode_utf8(name@)) && nul_free(encode_utf8(desc@)),
            adapter matches Some(a) ==> a.name_text() == name@ && a.desc_text() == desc@,
    {
        if is_nul_free(name.as_str()) && is_nul_free(desc.as_str()) {
            Some(EthernetAdapter { name, desc })
        } else {
            None
        }
    }

    /// Returns the adapter's name.
    pub fn name(&self) -> (name: &str)
        ensures
            name@ == self.name_text(),
            nul_free(encode_utf8(name@)),
    {
        proof {
            use_type_invariant(self);
        }
        self.name.as_str()
    }

    /// Returns the adapter's description.
    pub fn desc(&self) -> (desc: &str)
        ensures
            desc@ == self.desc_text(),
            nul_free(encode_utf8(desc@)),
    {
        proof {
            use_type_invariant(self);
        }
        self.desc.as_str()
    }
}

/// The adapter lists that are alive, each under the handle that was returned
/// for it.
pub type AdapterTable = HandleTable<Vec<EthernetAdapter>>;

/// Handle of a list of adapters.
#[derive(Clone, Copy, Debug, PartialEq, Eq, Structural)]
pub struct EthernetAdaptersPtr(pub usize);

/// Why a call on an adapter list was refused.
#[derive(Clone, Copy, Debug, PartialEq, Eq, Structural)]
pub enum AdapterError {
    /// The handle refers to no list: it was never issued, or its list was
    /// deleted.
    InvalidHandle,
    /// The list is shorter than the index asks for.
    IndexOutOfRange,
    /// The list holds more adapters than a 32-bit count can tell.
    TooManyAdapters,
}

/// `EthernetAdapters::new` of the link engine, which asks the operating
/// system for its adapters, with each adapter given as its name and its
/// description. Which adapters come back depends on the machine, so nothing
/// is claimed of them.
#[verifier::external_body]
fn discover_adapters() -> Vec<(String, String)> {
    autd3_link_soem::EthernetAdapters::new().iter().map(
        |a| (a.name().clone(), a.desc().clone()),
    ).collect()
}

/// Whether a name and a description make an adapter: neither may hold a nul
/// character.
pub open spec fn describes_adapter(pair: (String, String)) -> bool {
    nul_free(encode_utf8(pair.0@)) && nul_free(encode_utf8(pair.1@))
}

/// The names and descriptions, in their order, of the pairs in `found` that
/// make an adapter.
pub open spec fn described(found: Seq<(String, String)>) -> Seq<(Seq<char>, Seq<char>)>
    decreases found.len(),
{
    if found.len() == 0 {
        Seq::empty()
    } else if describes_adapter(found.last()) {
        described(found.drop_last()).push((found.last().0@, found.last().1@))
    } else {
        described(found.drop_last())
    }
}

/// The names and descriptions of the adapters in `list`, in their order.
pub open spec fn texts(list: Seq<EthernetAdapter>) -> Seq<(Seq<char>, Seq<char>)> {
    Seq::new(list.len(), |i: int| (list[i].name_text(), list[i].desc_text()))
}

/// Makes the list of the adapters that `found` describes by name and
/// description. A pair with a text that holds a nul character describes no
/// adapter and is left out.
pub fn adapters_from(found: &Vec<(String, String)>) -> (list: Vec<EthernetAdapter>)
    ensures
        texts(list@) == described(found@),
{
    let mut list: Vec<EthernetAdapter> = Vec::new();
    let mut i: usize = 0;
    assert(texts(list@) =~= described(found@.subrange(0, 0)));
    while i < found.len()
        invariant
            i <= found@.len(),
            texts(list@) == described(found@.subrange(0, i as int)),
        decreases found@.len() - i,
    {
        let name = found[i].0.clone();
        let desc = found[i].1.clone();
        let ghost before = list@;
        match EthernetAdapter::new(name, desc) {
            Some(adapter) => {
                list.push(adapter);
            },
            None => {},
        }
        proof {
            let next = found@.subrange(0, i + 1);
            assert(next.drop_last() == found@.subrange(0, i as int));
            assert(next.last() == found@[i as int]);
            if describes_adapter(found@[i as int]) {
                assert(texts(list@) =~= texts(before).push((found@[i as int].0@, found@[i as int].1@)));
            }
        }
        i = i + 1;
    }
    assert(found@.subrange(0, i as int) == found@);
    list
}

/// Stores a list of adapters and returns the handle that refers to it until
/// the list is deleted.
pub fn register_adapters(table: &mut AdapterTable, list: Vec<EthernetAdapter>) -> (ptr:
    EthernetAdaptersPtr)
    ensures
        ptr.0 == old(table).issued() + 1,
        final(table).issued() == old(table).issued() + 1,
        final(table)@ == old(table)@.insert(ptr.0 as int, list),
{
    EthernetAdaptersPtr(table.insert(list))
}

/// Looks up the adapters of this machine and returns the handle of their
/// list. The call cannot fail; which adapters the list holds is the
/// machine's matter. Every list that was alive before stays as it was.
pub fn AUTDAdapterPointer(table: &mut AdapterTable) -> (ptr: EthernetAdaptersPtr)
    ensures
        ptr.0 == old(table).issued() + 1,
        final(table).issued() == old(table).issued() + 1,
        final(table).is_live(ptr.0),
        final(table)@.remove(ptr.0 as int) == old(table)@,
{
    let found = discover_adapters();
    let list = adapters_from(&found);
    proof {
        old(table).lemma_live_handles_were_issued();
    }
    let ptr = register_adapters(table, list);
    assert(table@.remove(ptr.0 as int) =~= old(table)@);
    ptr
}

/// What asking for the size of the list under `handle` yields.
pub open spec fn size_of(lists: Map<int, Vec<EthernetAdapter>>, handle: usize) -> Result<
    u32,
    AdapterError,
> {
    if !lists.dom().contains(handle as int) {
        Err(AdapterError::InvalidHandle)
    } else if lists[handle as int]@.len() > u32::MAX {
        Err(AdapterError::TooManyAdapters)
    } else {
        Ok(lists[handle as int]@.len() as u32)
    }
}

/// What asking for the adapter at `idx` of the list under `handle` yields:
/// the C strings of its name and of its description.
pub open spec fn adapter_at(lists: Map<int, Vec<EthernetAdapter>>, handle: usize, idx: u32) -> Result<
    (Seq<u8>, Seq<u8>),
    AdapterError,
> {
    if !lists.dom().contains(handle as int) {
        Err(AdapterError::InvalidHandle)
    } else if idx >= lists[handle as int]@.len() {
        Err(AdapterError::IndexOutOfRange)
    } else {
        Ok(
            (
                c_string_of(lists[handle as int]@[idx as int].name_text()),
                c_string_of(lists[handle as int]@[idx as int].desc_text()),
            ),
        )
    }
}

/// The number of adapters in the list that `adapters` refers to. A dead
/// handle is refused, and so is a list too long for a 32-bit count.
pub fn AUTDAdapterGetSize(table: &AdapterTable, adapters: EthernetAdaptersPtr) -> (size: Result<
    u32,
    AdapterError,
>)
    ensures
        size == size_of(table@, adapters.0),
{
    match table.get(adapters.0) {
        None => Err(AdapterError::InvalidHandle),
        Some(list) => {
            let n = list.len();
            if n > u32::MAX as usize {
                Err(AdapterError::TooManyAdapters)
            } else {
                Ok(n as u32)
            }
        },
    }
}

/// Copies the name and the description of the adapter at `idx` out of the
/// list that `adapters` refers to, each as a C string that replaces what its
/// destination held. A dead handle or an index beyond the list is refused,
/// and then both destinations stay as they were.
pub fn AUTDAdapterGetAdapter(
    table: &AdapterTable,
    adapters: EthernetAdaptersPtr,
    idx: u32,
    desc: &mut Vec<u8>,
    name: &mut Vec<u8>,
) -> (done: Result<(), AdapterError>)
    ensures
        match adapter_at(table@, adapters.0, idx) {
            Ok((name_bytes, desc_bytes)) => {
                &&& done is Ok
                &&& final(name)@ == name_bytes
                &&& final(desc)@ == desc_bytes
                &&& is_c_string(name_bytes)
                &&& is_c_string(desc_bytes)
            },
            Err(e) => {
                &&& done == Err::<(), AdapterError>(e)
                &&& final(name)@ == old(name)@
                &&& final(desc)@ == old(desc)@
            },
        },
{
    match table.get(adapters.0) {
        None => Err(AdapterError::InvalidHandle),
        Some(list) => {
            if idx as usize >= list.len() {
                Err(AdapterError::IndexOutOfRange)
            } else {
                let adapter = &list[idx as usize];
                let name_bytes = to_c_string(adapter.name());
                let desc_bytes = to_c_string(adapter.desc());
                match (name_bytes, desc_bytes) {
                    (Some(n), Some(d)) => {
                        *name = n;
                        *desc = d;
                        Ok(())
                    },
                    _ => {
                        assert(false);
                        Err(AdapterError::IndexOutOfRange)
                    },
                }
            }
        },
    }
}

/// Deletes the list that `adapters` refers to. The handle is dead afterwards;
/// deleting through a dead handle is refused and changes nothing.
pub fn AUTDAdapterPointerDelete(table: &mut AdapterTable, adapters: EthernetAdaptersPtr) -> (done:
    Result<(), AdapterError>)
    ensures
        done == (if old(table).is_live(adapters.0) {
            Ok::<(), AdapterError>(())
        } else {
            Err::<(), AdapterError>(AdapterError::InvalidHandle)
        }),
        final(table)@ == old(table)@.remove(adapters.0 as int),
        final(table).issued() == old(table).issued(),
{
    match table.take(adapters.0) {
        Some(_) => Ok(()),
        None => Err(AdapterError::InvalidHandle),
    }
}

/// Every index below the size that a list reports can be read, and what is
/// read is a pair of C strings.
pub proof fn lemma_listed_adapters_can_be_read(
    lists: Map<int, Vec<EthernetAdapter>>,
    handle: usize,
    idx: u32,
)
    requires
        size_of(lists, handle) matches Ok(n) && idx < n,
        lists[handle as int]@[idx as int].wf(),
    ensures
        adapter_at(lists, handle, idx) matches Ok((name, desc)) && is_c_string(name) && is_c_string(
            desc,
        ),
{
    let adapter = lists[handle as int]@[idx as int];
    assert(c_string_of(adapter.name_text()).drop_last() == encode_utf8(adapter.name_text()));
    assert(c_string_of(adapter.desc_text()).drop_last() == encode_utf8(adapter.desc_text()));
}

} // verus!
