use vstd::prelude::*;

verus! {

use vstd::multiset::{group_multiset_axioms, Multiset};
use vstd::seq_lib::{group_to_multiset_ensures, to_multiset_contains, to_multiset_insert, to_multiset_remove};
use crate::text::{lemma_lex_le_refl, lemma_lex_le_total, lemma_lex_le_trans, lex_le, str_lex_le};

/// The workspace configuration: the root directory whose immediate children
/// are offered as session working directories. Built once at startup from
/// what the environment supplies, then passed explicitly to whoever needs
/// it.
#[derive(Debug, Clone, PartialEq)]
pub struct Config {
    pub workspace_root: String,
}

impl Config {
    /// Build the configuration from the workspace root the environment
    /// chose.
    pub fn init(workspace_root: String) -> (c: Config)
        ensures
            c.workspace_root@ == workspace_root@,
    {
        Config { workspace_root }
    }

    /// The configured workspace root.
    pub fn get(&self) -> (r: &String)
        ensures
            r@ == self.workspace_root@,
    {
        &self.workspace_root
    }
}

/// Directory information for workspace navigation: the entry's name and its
/// full path.
#[derive(Debug, Clone, PartialEq, Eq)]
pub struct DirectoryInfo {
    pub name: String,
    pub path: String,
}

/// The entries are in lexicographic order of their names.
pub open spec fn sorted_by_name(s: Seq<DirectoryInfo>) -> bool {
    forall|i: int, j: int|
        0 <= i < j < s.len() ==> lex_le((#[trigger] s[i]).name@, (#[trigger] s[j]).name@)
}

/// Sort directory entries by name, so that listings are stable for a given
/// snapshot: the result is ordered and holds exactly the given entries.
pub fn sort_directories(dirs: Vec<DirectoryInfo>) -> (r: Vec<DirectoryInfo>)
    ensures
        sorted_by_name(r@),
        r@.to_multiset() == dirs@.to_multiset(),
{
    broadcast use group_to_multiset_ensures;
    broadcast use group_multiset_axioms;

    let ghost orig = dirs@;
    let mut rest = dirs;
    let mut result: Vec<DirectoryInfo> = Vec::new();
    proof {
        assert(result@.to_multiset().add(rest@.to_multiset()) =~= orig.to_multiset());
    }
    while rest.len() > 0
        invariant
            sorted_by_name(result@),
            result@.to_multiset().add(rest@.to_multiset()) == orig.to_multiset(),
        decreases rest@.len(),
    {
        let ghost result_pre = result@;
        let ghost rest_pre = rest@;
        let x = rest.remove(0);
        let mut p: usize = 0;
        while p < result.len() && str_lex_le(result[p].name.as_str(), x.name.as_str())
            invariant
                p <= result@.len(),
                forall|j: int| 0 <= j < p ==> lex_le((#[trigger] result@[j]).name@, x.name@),
                result@ == result_pre,
            decreases result@.len() - p,
        {
            p = p + 1;
        }
        proof {
            if p < result@.len() {
                lemma_lex_le_total(result@[p as int].name@, x.name@);
            }
        }
        let ghost before_insert = result@;
        result.insert(p, x);
        proof {
            assert forall|i: int, j: int| 0 <= i < j < result@.len() implies lex_le(
                (#[trigger] result@[i]).name@,
                (#[trigger] result@[j]).name@,
            ) by {
                let pi = p as int;
                if i < pi && j == pi {
                } else if i == pi && j > pi {
                    lemma_lex_le_refl(before_insert[pi].name@);
                    assert(lex_le(before_insert[pi].name@, before_insert[j - 1].name@));
                    lemma_lex_le_trans(x.name@, before_insert[pi].name@, before_insert[j - 1].name@);
                } else if i < pi && j > pi {
                } else if i > pi && j > pi {
                } else if i < pi && j < pi {
                }
            }
            to_multiset_insert(before_insert, p as int, x);
            assert(result@ == before_insert.insert(p as int, x));
            assert(rest@ =~= rest_pre.remove(0));
            to_multiset_remove(rest_pre, 0);
            assert(x == rest_pre[0]);
            assert(rest_pre.contains(x));
            to_multiset_contains(rest_pre, x);
            assert(rest_pre.to_multiset().count(x) > 0);
            assert(result@.to_multiset().add(rest@.to_multiset()) =~= orig.to_multiset());
        }
    }
    proof {
        assert(rest@.to_multiset().len() == 0);
        assert(rest@.to_multiset() =~= Multiset::empty());
        assert(result@.to_multiset() =~= orig.to_multiset());
    }
    result
}

} // verus!
