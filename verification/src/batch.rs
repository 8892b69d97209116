use vstd::hash_map::StringHashMap;
use vstd::prelude::*;

use crate::errors::ModelError;
use crate::felt::Felt;
use crate::model::{StarknetValue, SvView};

verus! {

broadcast use vstd::map::group_map_axioms, vstd::set::group_set_axioms, vstd::hash_map::group_hash_map_axioms;

/// The selector derived from an entrypoint name by the platform's
/// standard name-hashing scheme, as 32 big-endian bytes.
pub uninterp spec fn selector_of(name: Seq<char>) -> Seq<u8>;

/// Relies on `starknet::core::utils::get_selector_from_name`: it
/// succeeds exactly on ASCII names, and the selector depends on the
/// name alone.
#[verifier::external_body]
fn selector_from_name(name: &str) -> (r: Result<Felt, ModelError>)
    ensures
        r is Ok <==> vstd::string::is_ascii(name),
        r matches Ok(f) ==> f.wf() && f@ == selector_of(name@),
        r matches Err(e) ==> e == ModelError::FailedToParseSelector,
{
    match starknet::core::utils::get_selector_from_name(name) {
        Ok(f) => Ok(Felt { bytes: f.to_bytes_be().to_vec() }),
        Err(_) => Err(ModelError::FailedToParseSelector),
    }
}

/// One read-only contract call: target address, entrypoint selector,
/// and call arguments.
#[derive(Debug)]
pub struct FunctionCall {
    pub contract_address: Felt,
    pub entry_point_selector: Felt,
    pub calldata: Vec<Felt>,
}

/// Build one read-only call from a contract address, a human-readable
/// entrypoint name and calldata. Fails, before any network work, on a
/// name with characters outside the permitted charset.
pub fn get_call_function(address: &Felt, selector: &str, calldata: Vec<Felt>) -> (r: Result<
    FunctionCall,
    ModelError,
>)
    ensures
        r is Ok <==> vstd::string::is_ascii(selector),
        r matches Ok(c) ==> {
            &&& c.contract_address@ == address@
            &&& c.entry_point_selector.wf()
            &&& c.entry_point_selector@ == selector_of(selector@)
            &&& c.calldata@ == calldata@
        },
        r matches Err(e) ==> e == ModelError::FailedToParseSelector,
{
    let entry_point_selector = match selector_from_name(selector) {
        Ok(f) => f,
        Err(e) => {
            return Err(e);
        },
    };
    Ok(FunctionCall { contract_address: address.duplicate(), entry_point_selector, calldata })
}

/// The calldata of a slot-parameterized call: the slot index and a
/// zero scalar.
pub fn slot_calldata(slot: u64) -> (r: Vec<Felt>)
    ensures
        r@.len() == 2,
        r@[0].wf() && r@[0].val() == slot as nat,
        r@[1].wf() && r@[1].val() == 0,
{
    let mut v: Vec<Felt> = Vec::new();
    v.push(Felt::from_u64(slot));
    v.push(Felt::zero());
    v
}

/// The mapping a list of named raw values assembles into: keyed by
/// name, a later entry overwriting an earlier one with the same name.
pub open spec fn pairs_map(s: Seq<(String, StarknetValue)>) -> Map<Seq<char>, SvView>
    decreases s.len(),
{
    if s.len() == 0 {
        Map::empty()
    } else {
        pairs_map(s.drop_last()).insert(s.last().0@, s.last().1@)
    }
}

/// A name-keyed exec mapping holds exactly the entries of a spec
/// mapping, value views included.
pub open spec fn map_matches(m: &StringHashMap<StarknetValue>, sm: Map<Seq<char>, SvView>) -> bool {
    &&& m@.dom() == sm.dom()
    &&& forall|k: Seq<char>| sm.dom().contains(k) ==> (#[trigger] m@[k])@ == sm[k]
}

/// Assemble a list of named raw values into a name-keyed mapping.
pub fn to_hash_map(value: &Vec<(String, StarknetValue)>) -> (r: StringHashMap<StarknetValue>)
    ensures
        map_matches(&r, pairs_map(value@)),
{
    let mut m: StringHashMap<StarknetValue> = StringHashMap::new();
    let mut i: usize = 0;
    while i < value.len()
        invariant
            i <= value@.len(),
            map_matches(&m, pairs_map(value@.take(i as int))),
        decreases value@.len() - i,
    {
        let pair = &value[i];
        m.insert(pair.0.clone(), pair.1.duplicate());
        proof {
            let t = value@.take(i + 1);
            assert(t.drop_last() =~= value@.take(i as int));
            assert(t.last() == value@[i as int]);
            assert(pairs_map(t) == pairs_map(value@.take(i as int)).insert(
                value@[i as int].0@,
                value@[i as int].1@,
            ));
        }
        i = i + 1;
    }
    proof {
        assert(value@.take(value@.len() as int) =~= value@);
    }
    m
}

/// What a batch of call outcomes collects to: the complete name-keyed
/// mapping when every call succeeded, and the first error in list
/// order otherwise. No partial mapping is ever produced.
pub open spec fn batch_spec(s: Seq<Result<(String, StarknetValue), ModelError>>) -> Result<
    Map<Seq<char>, SvView>,
    ModelError,
>
    decreases s.len(),
{
    if s.len() == 0 {
        Ok(Map::empty())
    } else {
        match batch_spec(s.drop_last()) {
            Ok(m) => match s.last() {
                Ok(p) => Ok(m.insert(p.0@, p.1@)),
                Err(e) => Err(e),
            },
            Err(e0) => Err(e0),
        }
    }
}

/// Collect the outcomes of one batch of named calls: every outcome
/// `Ok` yields the complete mapping, any failure discards everything
/// and reports the first error in list order.
pub fn collect_batch(outcomes: &Vec<Result<(String, StarknetValue), ModelError>>) -> (r: Result<
    StringHashMap<StarknetValue>,
    ModelError,
>)
    ensures
        match r {
            Ok(m) => batch_spec(outcomes@) matches Ok(sm) && map_matches(&m, sm),
            Err(e) => batch_spec(outcomes@) == Err::<Map<Seq<char>, SvView>, ModelError>(e),
        },
{
    let mut m: StringHashMap<StarknetValue> = StringHashMap::new();
    let mut i: usize = 0;
    while i < outcomes.len()
        invariant
            i <= outcomes@.len(),
            batch_spec(outcomes@.take(i as int)) matches Ok(sm) && map_matches(&m, sm),
        decreases outcomes@.len() - i,
    {
        proof {
            let t = outcomes@.take(i + 1);
            assert(t.drop_last() =~= outcomes@.take(i as int));
            assert(t.last() == outcomes@[i as int]);
        }
        match &outcomes[i] {
            Ok(pair) => {
                m.insert(pair.0.clone(), pair.1.duplicate());
            },
            Err(e) => {
                proof {
                    assert(batch_spec(outcomes@.take(i + 1)) == Err::<
                        Map<Seq<char>, SvView>,
                        ModelError,
                    >(*e));
                    assert(outcomes@.take(i + 1) =~= outcomes@.take((i + 1) as int));
                    lemma_batch_spec_err_prefix(outcomes@, outcomes@.take(i + 1));
                }
                return Err(*e);
            },
        }
        i = i + 1;
    }
    proof {
        assert(outcomes@.take(outcomes@.len() as int) =~= outcomes@);
    }
    Ok(m)
}

/// Once a prefix of the outcomes ends in an error, the whole batch
/// collects to that same error.
proof fn lemma_batch_spec_err_prefix(
    s: Seq<Result<(String, StarknetValue), ModelError>>,
    p: Seq<Result<(String, StarknetValue), ModelError>>,
)
    requires
        p.len() <= s.len(),
        p =~= s.take(p.len() as int),
        batch_spec(p) is Err,
    ensures
        batch_spec(s) == batch_spec(p),
    decreases s.len(),
{
    if s.len() > p.len() {
        assert(p =~= s.drop_last().take(p.len() as int));
        lemma_batch_spec_err_prefix(s.drop_last(), p);
    } else {
        assert(s =~= p);
    }
}

/// A batch whose outcomes all succeeded, with pairwise distinct names,
/// collects to a complete mapping holding exactly one entry per name.
pub proof fn lemma_batch_complete(s: Seq<Result<(String, StarknetValue), ModelError>>)
    requires
        forall|i: int| 0 <= i < s.len() ==> (#[trigger] s[i]) is Ok,
        forall|i: int, j: int|
            0 <= i < j < s.len() ==> s[i].unwrap().0@ != s[j].unwrap().0@,
    ensures
        batch_spec(s) is Ok,
        batch_spec(s).unwrap().dom().finite(),
        forall|k: Seq<char>|
            batch_spec(s).unwrap().dom().contains(k) <==> (exists|i: int|
                0 <= i < s.len() && (#[trigger] s[i]).unwrap().0@ == k),
        batch_spec(s).unwrap().len() == s.len(),
    decreases s.len(),
{
    if s.len() > 0 {
        lemma_batch_complete(s.drop_last());
        let m = batch_spec(s.drop_last()).unwrap();
        let key = s.last().unwrap().0@;
        assert(!m.dom().contains(key)) by {
            if m.dom().contains(key) {
                let i = choose|i: int|
                    0 <= i < s.drop_last().len() && (#[trigger] s.drop_last()[i]).unwrap().0@
                        == key;
                assert(s[i].unwrap().0@ == s[s.len() - 1].unwrap().0@);
            }
        }
        assert(batch_spec(s).unwrap() == m.insert(key, s.last().unwrap().1@));
        assert forall|k: Seq<char>|
            batch_spec(s).unwrap().dom().contains(k) implies (exists|i: int|
            0 <= i < s.len() && (#[trigger] s[i]).unwrap().0@ == k) by {
            if k == key {
                assert(s[s.len() - 1].unwrap().0@ == k);
            } else {
                let i = choose|i: int|
                    0 <= i < s.drop_last().len() && (#[trigger] s.drop_last()[i]).unwrap().0@
                        == k;
                assert(s[i].unwrap().0@ == k);
            }
        }
        assert forall|k: Seq<char>|
            (exists|i: int| 0 <= i < s.len() && (#[trigger] s[i]).unwrap().0@ == k) implies
            batch_spec(s).unwrap().dom().contains(k) by {
            let i = choose|i: int| 0 <= i < s.len() && (#[trigger] s[i]).unwrap().0@ == k;
            if i < s.len() - 1 {
                assert(s.drop_last()[i].unwrap().0@ == k);
            }
        }
    }
}

} // verus!
