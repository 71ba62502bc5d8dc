use crate::registry::{domain_name, domain_of};
use crate::text::{comma_pieces, split_commas, trim_of, trimmed};
use vstd::prelude::*;
use vstd::string::*;

verus! {

/// Position of the last '.' of `s`, or -1 when it has none.
pub open spec fn last_dot(s: Seq<char>) -> int
    decreases s.len(),
{
    if s.len() == 0 {
        -1
    } else if s.last() == '.' {
        s.len() - 1
    } else {
        last_dot(s.drop_last())
    }
}

proof fn lemma_last_dot_range(s: Seq<char>)
    ensures
        -1 <= last_dot(s) < s.len(),
    decreases s.len(),
{
    if s.len() > 0 {
        lemma_last_dot_range(s.drop_last());
    }
}

fn find_last_dot(s: &str) -> (r: Option<usize>)
    ensures
        match r {
            Some(d) => last_dot(s@) == d,
            None => last_dot(s@) == -1,
        },
{
    let n = s.unicode_len();
    let mut i: usize = n;
    assert(s@.subrange(0, n as int) =~= s@);
    while i > 0
        invariant
            i <= n == s@.len(),
            last_dot(s@) == last_dot(s@.subrange(0, i as int)),
        decreases i,
    {
        let ghost prefix = s@.subrange(0, i as int);
        assert(prefix.drop_last() =~= s@.subrange(0, i - 1));
        if s.get_char(i - 1) == '.' {
            return Some(i - 1);
        }
        i = i - 1;
    }
    assert(s@.subrange(0, 0) =~= Seq::<char>::empty());
    None
}

/// `base` under each top-level domain of `tlds`, in order, leaving out the
/// one that gives `name` back.
pub open spec fn other_domains(base: Seq<char>, name: Seq<char>, tlds: Seq<Seq<char>>) -> Seq<Seq<char>>
    decreases tlds.len(),
{
    if tlds.len() == 0 {
        Seq::empty()
    } else {
        let p = other_domains(base, name, tlds.drop_last());
        let d = domain_of(base, tlds.last());
        if d != name {
            p.push(d)
        } else {
            p
        }
    }
}

/// The domains a check of `name` against `tlds` looks up. A name that is
/// already a domain comes first, followed by its base under the other
/// top-level domains; a bare name is looked up under each of them.
pub open spec fn candidate_domains(name: Seq<char>, tlds: Seq<Seq<char>>) -> Seq<Seq<char>> {
    if last_dot(name) >= 0 {
        seq![name] + other_domains(name.subrange(0, last_dot(name)), name, tlds)
    } else {
        other_domains(name, name, tlds)
    }
}

/// The top-level domains of a comma-separated list, each trimmed.
pub open spec fn tld_list(tlds: Seq<char>) -> Seq<Seq<char>> {
    comma_pieces(tlds).map_values(|p: Seq<char>| trim_of(p))
}

/// The domains a check of `name` looks up, for top-level domains already
/// split and trimmed.
pub fn candidates_for(name: &str, tlds: &Vec<String>) -> (r: Vec<String>)
    ensures
        r@.len() == candidate_domains(name@, tlds@.map_values(|t: String| t@)).len(),
        forall|k: int|
            0 <= k < r@.len() ==> #[trigger] r@[k]@ == candidate_domains(name@, tlds@.map_values(|t: String| t@))[k],
{
    let ghost tl = tlds@.map_values(|t: String| t@);
    let mut out: Vec<String> = Vec::new();
    let base: String;
    let ghost head: Seq<Seq<char>>;
    match find_last_dot(name) {
        Some(d) => {
            proof {
                lemma_last_dot_range(name@);
            }
            base = String::from_str(name.substring_char(0, d));
            out.push(String::from_str(name));
            proof {
                head = seq![name@];
            }
        },
        None => {
            base = String::from_str(name);
            proof {
                head = Seq::empty();
            }
        },
    }
    let whole = String::from_str(name);
    let mut i: usize = 0;
    while i < tlds.len()
        invariant
            tl == tlds@.map_values(|t: String| t@),
            i <= tlds@.len(),
            whole@ == name@,
            candidate_domains(name@, tl) == head + other_domains(base@, name@, tl),
            out@.len() == head.len() + other_domains(base@, name@, tl.subrange(0, i as int)).len(),
            forall|k: int|
                0 <= k < out@.len() ==> #[trigger] out@[k]@ == (head + other_domains(
                    base@,
                    name@,
                    tl.subrange(0, i as int),
                ))[k],
        decreases tlds@.len() - i,
    {
        assert(tl.subrange(0, i + 1).drop_last() =~= tl.subrange(0, i as int));
        let d = domain_name(base.as_str(), tlds[i].as_str());
        if !(d == whole) {
            out.push(d);
        }
        i = i + 1;
    }
    assert(tl.subrange(0, tlds@.len() as int) =~= tl);
    out
}

/// The domains a check of `name` against the comma-separated `tlds` looks up.
pub fn domain_candidates(name: &str, tlds: &str) -> (r: Vec<String>)
    ensures
        r@.len() == candidate_domains(name@, tld_list(tlds@)).len(),
        forall|k: int| 0 <= k < r@.len() ==> #[trigger] r@[k]@ == candidate_domains(name@, tld_list(tlds@))[k],
{
    let pieces = split_commas(tlds);
    let mut list: Vec<String> = Vec::new();
    let mut i: usize = 0;
    while i < pieces.len()
        invariant
            i <= pieces@.len(),
            pieces@.len() == comma_pieces(tlds@).len(),
            forall|k: int| 0 <= k < pieces@.len() ==> #[trigger] pieces@[k]@ == comma_pieces(tlds@)[k],
            list@.len() == i,
            forall|k: int| 0 <= k < i ==> #[trigger] list@[k]@ == trim_of(comma_pieces(tlds@)[k]),
        decreases pieces@.len() - i,
    {
        list.push(trimmed(pieces[i].as_str()));
        i = i + 1;
    }
    assert(list@.map_values(|t: String| t@) =~= tld_list(tlds@));
    candidates_for(name, &list)
}

} // verus!
