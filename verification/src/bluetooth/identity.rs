//! The identity cache: which opaque device id stands for which device
//! address, and which peripheral handle a device id leads to.
//!
//! An address gets its id on its first match and keeps it. The handle that
//! came with the first match stays the one the id leads to. No two addresses
//! share an id, and no id is the text of its address: a candidate id that is
//! in use, or that equals the address, is not given out.

use crate::bluetooth::bleuuid::{
    hyphenated, hyphenated_form, is_random_uuid, lemma_hyphenated_form_is_ascii, random_uuid,
};
use vstd::string::StringSliceAdditionalSpecFns;
use vstd::hash_map::StringHashMap;
use vstd::prelude::*;

verus! {

/// What `base64::Engine::encode` of the standard engine returns for the UTF-8
/// bytes of a text.
pub uninterp spec fn base64_standard_encoding(text: Seq<char>) -> Seq<char>;

/// Encodes the bytes of a text with `base64::Engine::encode` on the standard
/// engine (standard alphabet, padded): four characters for every three
/// bytes, the last group padded. The length bound keeps the encoded length
/// inside `usize`.
#[verifier::external_body]
fn base64_standard(text: &str) -> (encoded: String)
    requires
        text@.len() <= 0x1000_0000,
    ensures
        encoded@ == base64_standard_encoding(text@),
        encoded@.len() == 4 * ((text.spec_bytes().len() + 2) / 3),
{
    base64::Engine::encode(&base64::prelude::BASE64_STANDARD, text)
}

/// The device id made from a UUID: the base64 encoding of its hyphenated form.
pub open spec fn device_id_for(uuid: u128) -> Seq<char> {
    base64_standard_encoding(hyphenated_form(uuid))
}

/// The length of every device id: the 36 bytes of a hyphenated UUID make 48
/// characters.
pub const DEVICE_ID_LENGTH: usize = 48;

/// Makes the device id that belongs to a UUID.
pub fn device_id_from_uuid(uuid: u128) -> (id: String)
    ensures
        id@ == device_id_for(uuid),
        id@.len() == DEVICE_ID_LENGTH,
{
    let text = hyphenated(uuid);
    proof {
        lemma_hyphenated_form_is_ascii(uuid);
        vstd::utf8::is_ascii_chars_encode_utf8(text@);
    }
    base64_standard(text.as_str())
}

/// The cache as two maps: from address to device id, and from device id to
/// the peripheral handle.
pub struct IdentityView<H> {
    pub ids: Map<Seq<char>, Seq<char>>,
    pub handles: Map<Seq<char>, H>,
}

/// Whether `candidate` can become the id of the new address `address`: it is
/// not empty, it is not the address, and no handle stands under it yet.
pub open spec fn usable<H>(
    cache: IdentityView<H>,
    address: Seq<char>,
    candidate: Seq<char>,
) -> bool {
    &&& candidate.len() > 0
    &&& candidate != address
    &&& !cache.handles.contains_key(candidate)
}

/// The cache after `address` was resolved with `handle` and with `candidate`
/// as the id to give out if the address is new, and the id that the address
/// has then. A known address keeps its id and the cache stays as it is. A new
/// address gets the candidate if it is usable; if not, the address gets no id
/// and the cache stays as it is.
pub open spec fn resolve_step<H>(
    cache: IdentityView<H>,
    address: Seq<char>,
    handle: H,
    candidate: Seq<char>,
) -> (IdentityView<H>, Option<Seq<char>>) {
    if cache.ids.contains_key(address) {
        (cache, Some(cache.ids[address]))
    } else if usable(cache, address, candidate) {
        (
            IdentityView {
                ids: cache.ids.insert(address, candidate),
                handles: cache.handles.insert(candidate, handle),
            },
            Some(candidate),
        )
    } else {
        (cache, None)
    }
}

/// What holds of every cache: each id in use is not empty, is not the text
/// of its address and leads to a handle; two addresses never share an id;
/// and every handle stands under the id of some address.
pub open spec fn consistent<H>(cache: IdentityView<H>) -> bool {
    &&& forall|address: Seq<char>| #[trigger]
        cache.ids.contains_key(address) ==> {
            &&& cache.ids[address].len() > 0
            &&& cache.ids[address] != address
            &&& cache.handles.contains_key(cache.ids[address])
        }
    &&& forall|one: Seq<char>, other: Seq<char>|
        #![trigger cache.ids[one], cache.ids[other]]
        cache.ids.contains_key(one) && cache.ids.contains_key(other) && one != other
            ==> cache.ids[one] != cache.ids[other]
    &&& forall|id: Seq<char>| #[trigger]
        cache.handles.contains_key(id) ==> exists|address: Seq<char>| #[trigger]
            cache.ids.contains_key(address) && cache.ids[address] == id
}

/// How often a new id is drawn before the cache gives up on finding one
/// that is usable.
pub const MAX_DRAWS: usize = 4;

/// Device ids by address, and peripheral handles by device id.
#[verifier::reject_recursive_types(H)]
pub struct IdentityCache<H> {
    address_to_id: StringHashMap<String>,
    devices: StringHashMap<H>,
}

impl<H> View for IdentityCache<H> {
    type V = IdentityView<H>;

    closed spec fn view(&self) -> IdentityView<H> {
        IdentityView {
            ids: self.address_to_id@.map_values(|id: String| id@),
            handles: self.devices@,
        }
    }
}

impl<H> IdentityCache<H> {
    /// Every cache is consistent.
    #[verifier::type_invariant]
    pub open spec fn well_formed(&self) -> bool {
        consistent(self@)
    }

    /// An empty cache.
    pub fn new() -> (cache: Self)
        ensures
            cache@.ids == Map::<Seq<char>, Seq<char>>::empty(),
            cache@.handles == Map::<Seq<char>, H>::empty(),
            consistent(cache@),
    {
        let address_to_id = StringHashMap::new();
        let devices = StringHashMap::new();
        assert(address_to_id@.map_values(|id: String| id@) =~= Map::<
            Seq<char>,
            Seq<char>,
        >::empty());
        IdentityCache { address_to_id, devices }
    }

    /// The id that `address` has, if it was resolved before.
    pub fn device_id(&self, address: &str) -> (id: Option<String>)
        ensures
            id is Some == self@.ids.contains_key(address@),
            id matches Some(text) ==> text@ == self@.ids[address@],
            consistent(self@),
    {
        proof {
            use_type_invariant(self);
        }
        match self.address_to_id.get(address) {
            Some(id) => Some(id.clone()),
            None => None,
        }
    }

    /// The handle that `device_id` leads to, if the id was given out.
    pub fn device(&self, device_id: &str) -> (handle: Option<&H>)
        ensures
            handle is Some == self@.handles.contains_key(device_id@),
            handle matches Some(found) ==> *found == self@.handles[device_id@],
            consistent(self@),
    {
        proof {
            use_type_invariant(self);
        }
        self.devices.get(device_id)
    }

    /// The id made from `uuid`, if it is usable for the new address `address`.
    pub fn usable_id(&self, address: &String, uuid: u128) -> (id: Option<String>)
        ensures
            id is Some == usable(self@, address@, device_id_for(uuid)),
            id matches Some(text) ==> text@ == device_id_for(uuid),
    {
        let id = device_id_from_uuid(uuid);
        if id == *address || self.devices.contains_key(id.as_str()) {
            None
        } else {
            Some(id)
        }
    }

    /// Draws random UUIDs until one gives a usable id for `address`, at most
    /// `MAX_DRAWS` times, and returns the last one drawn.
    pub fn draw_uuid(&self, address: &String) -> (uuid: u128)
        ensures
            is_random_uuid(uuid),
    {
        let mut uuid = random_uuid();
        let mut draws: usize = 1;
        while draws < MAX_DRAWS && self.usable_id(address, uuid).is_none()
            invariant
                is_random_uuid(uuid),
                draws <= MAX_DRAWS,
            decreases MAX_DRAWS - draws,
        {
            uuid = random_uuid();
            draws += 1;
        }
        uuid
    }

    /// Resolves `address` to its device id, with `uuid` as the source of a new id.
    ///
    /// A known address keeps its id, and the cache stays as it is. A new
    /// address gets the id made from `uuid`, and that id leads to `handle`,
    /// unless that id is in use or is the address itself: then the address
    /// gets no id, and the cache stays as it is.
    pub fn resolve_or_insert_with(
        &mut self,
        address: String,
        handle: H,
        uuid: u128,
    ) -> (id: Option<String>)
        ensures
            final(self)@ == resolve_step(old(self)@, address@, handle, device_id_for(uuid)).0,
            match resolve_step(old(self)@, address@, handle, device_id_for(uuid)).1 {
                Some(expected) => id matches Some(text) && text@ == expected,
                None => id is None,
            },
            consistent(final(self)@),
    {
        proof {
            use_type_invariant(&*self);
            lemma_resolve_keeps_consistent(self@, address@, handle, device_id_for(uuid));
        }
        match self.address_to_id.get(address.as_str()) {
            Some(known) => {
                return Some(known.clone());
            },
            None => {},
        }
        match self.usable_id(&address, uuid) {
            Some(id) => {
                let mut taken = IdentityCache::new();
                core::mem::swap(self, &mut taken);
                let IdentityCache { mut address_to_id, mut devices } = taken;
                let ghost before = address_to_id@;
                devices.insert(id.clone(), handle);
                address_to_id.insert(address, id.clone());
                assert(address_to_id@.map_values(|id: String| id@) =~= before.map_values(
                    |id: String| id@,
                ).insert(address@, id@));
                *self = IdentityCache { address_to_id, devices };
                Some(id)
            },
            None => None,
        }
    }

    /// Resolves `address` to its device id, drawing random UUIDs for a new id.
    ///
    /// What comes back is what `resolve_or_insert_with` gives for some random UUID.
    pub fn resolve_or_insert(&mut self, address: String, handle: H) -> (id: Option<String>)
        ensures
            exists|uuid: u128|
                {
                    &&& is_random_uuid(uuid)
                    &&& final(self)@ == (#[trigger] resolve_step(
                        old(self)@,
                        address@,
                        handle,
                        device_id_for(uuid),
                    )).0
                    &&& match resolve_step(old(self)@, address@, handle, device_id_for(uuid)).1 {
                        Some(expected) => id matches Some(text) && text@ == expected,
                        None => id is None,
                    }
                },
            consistent(final(self)@),
    {
        let uuid = self.draw_uuid(&address);
        self.resolve_or_insert_with(address, handle, uuid)
    }
}

/// Resolving one address twice in a row gives the same id both times, whatever
/// handle and candidate the second call brings, and the second call leaves
/// the cache as the first one left it.
pub proof fn lemma_resolve_twice<H>(
    cache: IdentityView<H>,
    address: Seq<char>,
    first_handle: H,
    first_candidate: Seq<char>,
    second_handle: H,
    second_candidate: Seq<char>,
)
    requires
        resolve_step(cache, address, first_handle, first_candidate).1 is Some,
    ensures
        ({
            let first = resolve_step(cache, address, first_handle, first_candidate);
            let second = resolve_step(first.0, address, second_handle, second_candidate);
            second.1 == first.1 && second.0 == first.0
        }),
{
}

/// Two resolutions of one address, each with a handle and a candidate of its
/// own, agree on the id in whichever order they reach the cache: where the
/// earlier one gives an id, the later one gives the same, and that id is the
/// one the address has afterwards.
pub proof fn lemma_resolve_in_either_order<H>(
    cache: IdentityView<H>,
    address: Seq<char>,
    handle_a: H,
    candidate_a: Seq<char>,
    handle_b: H,
    candidate_b: Seq<char>,
)
    ensures
        ({
            let a_first = resolve_step(cache, address, handle_a, candidate_a);
            let b_second = resolve_step(a_first.0, address, handle_b, candidate_b);
            a_first.1 is Some ==> {
                &&& b_second.1 == a_first.1
                &&& b_second.0.ids.contains_key(address)
                &&& Some(b_second.0.ids[address]) == a_first.1
            }
        }),
        ({
            let b_first = resolve_step(cache, address, handle_b, candidate_b);
            let a_second = resolve_step(b_first.0, address, handle_a, candidate_a);
            b_first.1 is Some ==> {
                &&& a_second.1 == b_first.1
                &&& a_second.0.ids.contains_key(address)
                &&& Some(a_second.0.ids[address]) == b_first.1
            }
        }),
{
}

/// An address that has an id keeps it, and the handle its id leads to,
/// through every later resolution, of itself or of another address.
pub proof fn lemma_resolve_keeps_known<H>(
    cache: IdentityView<H>,
    known: Seq<char>,
    address: Seq<char>,
    handle: H,
    candidate: Seq<char>,
)
    requires
        consistent(cache),
        cache.ids.contains_key(known),
    ensures
        ({
            let after = resolve_step(cache, address, handle, candidate).0;
            &&& after.ids.contains_key(known)
            &&& after.ids[known] == cache.ids[known]
            &&& after.handles.contains_key(cache.ids[known])
            &&& after.handles[cache.ids[known]] == cache.handles[cache.ids[known]]
        }),
{
}

/// A new address that gets an id gets one that no address had and under
/// which no handle stood; both maps gain exactly that entry, the id leads to
/// the handle that came with the address, and the id is not the address.
pub proof fn lemma_new_address_gets_new_id<H>(
    cache: IdentityView<H>,
    address: Seq<char>,
    handle: H,
    candidate: Seq<char>,
)
    requires
        consistent(cache),
        !cache.ids.contains_key(address),
        resolve_step(cache, address, handle, candidate).1 is Some,
    ensures
        ({
            let after = resolve_step(cache, address, handle, candidate).0;
            &&& !cache.handles.contains_key(candidate)
            &&& forall|other: Seq<char>| #[trigger]
                cache.ids.contains_key(other) ==> cache.ids[other] != candidate
            &&& candidate != address
            &&& after.ids == cache.ids.insert(address, candidate)
            &&& after.handles == cache.handles.insert(candidate, handle)
            &&& after.ids.dom() == cache.ids.dom().insert(address)
            &&& after.handles.dom() == cache.handles.dom().insert(candidate)
            &&& after.handles[after.ids[address]] == handle
        }),
{
    let after = resolve_step(cache, address, handle, candidate).0;
    assert(after.ids.dom() =~= cache.ids.dom().insert(address));
    assert(after.handles.dom() =~= cache.handles.dom().insert(candidate));
}

/// A resolution keeps the cache consistent.
pub proof fn lemma_resolve_keeps_consistent<H>(
    cache: IdentityView<H>,
    address: Seq<char>,
    handle: H,
    candidate: Seq<char>,
)
    requires
        consistent(cache),
    ensures
        consistent(resolve_step(cache, address, handle, candidate).0),
{
    let after = resolve_step(cache, address, handle, candidate).0;
    if !cache.ids.contains_key(address) && usable(cache, address, candidate) {
        assert forall|other: Seq<char>| #[trigger] after.ids.contains_key(other) implies {
            &&& after.ids[other].len() > 0
            &&& after.ids[other] != other
            &&& after.handles.contains_key(after.ids[other])
        } by {
            if other != address {
                assert(cache.ids.contains_key(other));
            }
        }
        assert forall|one: Seq<char>, other: Seq<char>|
            after.ids.contains_key(one) && after.ids.contains_key(other) && one
                != other implies #[trigger] after.ids[one] != #[trigger] after.ids[other] by {
            if one != address {
                assert(cache.ids.contains_key(one));
            }
            if other != address {
                assert(cache.ids.contains_key(other));
            }
        }
        assert forall|id: Seq<char>| #[trigger] after.handles.contains_key(id) implies exists|
            owner: Seq<char>,
        | #[trigger] after.ids.contains_key(owner) && after.ids[owner] == id by {
            if id == candidate {
                assert(after.ids.contains_key(address) && after.ids[address] == id);
            } else {
                assert(cache.handles.contains_key(id));
                let owner = choose|owner: Seq<char>| #[trigger]
                    cache.ids.contains_key(owner) && cache.ids[owner] == id;
                assert(after.ids.contains_key(owner) && after.ids[owner] == id);
            }
        }
    }
}

} // verus!
