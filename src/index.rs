//! The ownership index: for each owner, the set of ids of the tokens it holds.
use vstd::prelude::*;
use crate::table::StrMap;

verus! {

/// Owner to the set of its token ids; each set is a table with unit values.
pub type OwnerIndex = StrMap<StrMap<()>>;

/// The table and every set in it are well formed.
pub open spec fn index_wf(index: OwnerIndex) -> bool {
    &&& index.wf()
    &&& forall|o: Seq<char>| #[trigger] index@.contains_key(o) ==> index@[o].wf()
}

/// `id` is listed under owner `o`.
pub open spec fn index_has(index: OwnerIndex, o: Seq<char>, id: Seq<char>) -> bool {
    index@.contains_key(o) && index@[o]@.contains_key(id)
}

/// The ids listed under `o`, in the order of its set; empty for an owner
/// with no entry.
pub open spec fn index_ids(index: OwnerIndex, o: Seq<char>) -> Seq<Seq<char>> {
    if index@.contains_key(o) {
        index@[o].key_seq()
    } else {
        Seq::empty()
    }
}

/// The ids listed under an owner are those that `index_has` gives, each once.
pub proof fn lemma_index_ids(index: OwnerIndex, o: Seq<char>)
    requires
        index_wf(index),
    ensures
        index_ids(index, o).no_duplicates(),
        forall|id: Seq<char>| #[trigger] index_ids(index, o).contains(id) <==> index_has(index, o, id),
{
    if index@.contains_key(o) {
        index@[o].lemma_keys();
    }
}

/// Lists `token_id` under `account_id`, creating the owner's set if absent.
pub fn add_token_to_owner(index: &mut OwnerIndex, account_id: &String, token_id: &String)
    requires
        index_wf(*old(index)),
    ensures
        index_wf(*final(index)),
        forall|o: Seq<char>, id: Seq<char>|
            #[trigger] index_has(*final(index), o, id) <==> index_has(*old(index), o, id) || (o
                == account_id@ && id == token_id@),
{
    let taken = index.remove(account_id.as_str());
    let mut set = match taken {
        Some(s) => s,
        None => StrMap::new(),
    };
    set.insert(token_id.clone(), ());
    index.insert(account_id.clone(), set);
    assert forall|o: Seq<char>| #[trigger] index@.contains_key(o) implies index@[o].wf() by {
        if o != account_id@ {
            assert(old(index)@.contains_key(o));
        }
    }
}

/// Takes `token_id` out of the set of `account_id`; a set left empty is
/// dropped, which reads the same as an owner with no entry.
pub fn remove_token_from_owner(index: &mut OwnerIndex, account_id: &str, token_id: &str)
    requires
        index_wf(*old(index)),
    ensures
        index_wf(*final(index)),
        forall|o: Seq<char>, id: Seq<char>|
            #[trigger] index_has(*final(index), o, id) <==> index_has(*old(index), o, id) && !(o
                == account_id@ && id == token_id@),
{
    match index.remove(account_id) {
        Some(mut set) => {
            set.remove(token_id);
            if set.len() > 0 {
                index.insert(account_id.to_owned(), set);
                assert forall|o: Seq<char>| #[trigger] index@.contains_key(o) implies index@[o].wf() by {
                    if o != account_id@ {
                        assert(old(index)@.contains_key(o));
                    }
                }
            } else {
                proof {
                    set.lemma_keys();
                }
                assert forall|o: Seq<char>| #[trigger] index@.contains_key(o) implies index@[o].wf() by {
                    assert(old(index)@.contains_key(o));
                }
                assert forall|o: Seq<char>, id: Seq<char>|
                    #[trigger] index_has(*index, o, id) <==> index_has(*old(index), o, id) && !(o
                        == account_id@ && id == token_id@) by {
                    if o == account_id@ && old(index)@[o]@.contains_key(id) && id != token_id@ {
                        assert(set@.contains_key(id));
                        assert(set.key_seq().contains(id));
                    }
                }
            }
        },
        None => {},
    }
}

} // verus!
