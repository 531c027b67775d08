//! Names of the files a conversion writes: the picture, which must not
//! overwrite anything, and the temporary document.

use crate::text::{decimal, lemma_decimal_injective, lemma_decimal_nonempty, push_decimal};
use vstd::prelude::*;

verus! {

/// The `k`-th name tried for a picture called `stem`: `stem.png` first, then
/// `stem (1).png`, `stem (2).png` and so on.
pub open spec fn candidate(stem: Seq<char>, k: nat) -> Seq<char> {
    if k == 0 {
        stem + ".png"@
    } else {
        stem + " ("@ + decimal(k) + ").png"@
    }
}

/// The texts of a list of names.
pub open spec fn names(list: Seq<String>) -> Seq<Seq<char>> {
    list.map_values(|s: String| s@)
}

/// `k` is the first candidate of `stem` that is not among `taken`.
pub open spec fn is_first_free(stem: Seq<char>, taken: Seq<Seq<char>>, k: nat) -> bool {
    &&& !taken.contains(candidate(stem, k))
    &&& forall|j: nat| j < k ==> taken.contains(#[trigger] candidate(stem, j))
}

/// The index of the first candidate of `stem` that is not among `taken`.
pub open spec fn first_free(stem: Seq<char>, taken: Seq<Seq<char>>) -> nat {
    choose|k: nat| is_first_free(stem, taken, k)
}

/// Different indices give different candidate names.
pub proof fn lemma_candidate_injective(stem: Seq<char>, i: nat, j: nat)
    requires
        candidate(stem, i) == candidate(stem, j),
    ensures
        i == j,
{
    reveal_strlit(".png");
    reveal_strlit(" (");
    reveal_strlit(").png");
    let a = candidate(stem, i);
    let b = candidate(stem, j);
    let at = stem.len() as int;
    if i == 0 && j == 0 {
    } else if i == 0 {
        assert(a[at] == '.');
        assert(b[at] == ' ');
    } else if j == 0 {
        assert(a[at] == ' ');
        assert(b[at] == '.');
    } else {
        let di = decimal(i);
        let dj = decimal(j);
        assert(a.len() == stem.len() + 2 + di.len() + 5);
        assert(b.len() == stem.len() + 2 + dj.len() + 5);
        assert forall|t: int| 0 <= t < di.len() implies di[t] == dj[t] by {
            assert(a[at + 2 + t] == di[t]);
            assert(b[at + 2 + t] == dj[t]);
        }
        assert(di =~= dj);
        lemma_decimal_injective(i, j);
    }
}

/// Among the first `taken.len() + 1` candidates one is free: a list of `n`
/// names cannot hold `n + 1` different ones.
pub proof fn lemma_free_candidate_exists(stem: Seq<char>, taken: Seq<Seq<char>>)
    ensures
        exists|k: nat| k <= taken.len() && !taken.contains(#[trigger] candidate(stem, k)),
{
    let n = taken.len() as int;
    if forall|k: nat| k <= taken.len() ==> taken.contains(#[trigger] candidate(stem, k)) {
        let x = vstd::set_lib::set_int_range(0, n + 1);
        let f = |k: int| candidate(stem, k as nat);
        vstd::set_lib::lemma_int_range(0, n + 1);
        assert(vstd::relations::injective_on(f, x)) by {
            assert forall|k1: int, k2: int|
                x.contains(k1) && x.contains(k2) && #[trigger] f(k1) == #[trigger] f(
                    k2,
                ) implies k1 == k2 by {
                lemma_candidate_injective(stem, k1 as nat, k2 as nat);
            }
        }
        let y = x.map(f);
        vstd::set_lib::lemma_map_size(x, y, f);
        assert(y.subset_of(taken.to_set())) by {
            assert forall|e: Seq<char>| y.contains(e) implies taken.to_set().contains(e) by {
                let k = choose|k: int| x.contains(k) && f(k) == e;
                assert(taken.contains(candidate(stem, k as nat)));
            }
        }
        vstd::seq_lib::seq_to_set_is_finite(taken);
        vstd::set_lib::lemma_len_subset(y, taken.to_set());
        taken.lemma_cardinality_of_set();
        assert(false);
    }
}

/// The first free candidate exists, is unique, and lies within the first
/// `taken.len() + 1` candidates.
pub proof fn lemma_first_free(stem: Seq<char>, taken: Seq<Seq<char>>)
    ensures
        is_first_free(stem, taken, first_free(stem, taken)),
        first_free(stem, taken) <= taken.len(),
        forall|k: nat| is_first_free(stem, taken, k) ==> k == first_free(stem, taken),
{
    lemma_free_candidate_exists(stem, taken);
    let bound = choose|k: nat| k <= taken.len() && !taken.contains(#[trigger] candidate(stem, k));
    lemma_least_free(stem, taken, bound);
    let least = choose|k: nat| k <= bound && is_first_free(stem, taken, k);
    assert(is_first_free(stem, taken, least));
    let ff = first_free(stem, taken);
    assert forall|k: nat| is_first_free(stem, taken, k) implies k == ff by {
        if k < ff {
            assert(taken.contains(candidate(stem, k)));
        } else if ff < k {
            assert(taken.contains(candidate(stem, ff)));
        }
    }
}

proof fn lemma_least_free(stem: Seq<char>, taken: Seq<Seq<char>>, bound: nat)
    requires
        !taken.contains(candidate(stem, bound)),
    ensures
        exists|k: nat| k <= bound && is_first_free(stem, taken, k),
    decreases bound,
{
    if is_first_free(stem, taken, bound) {
    } else {
        let j = choose|j: nat| j < bound && !taken.contains(#[trigger] candidate(stem, j));
        lemma_least_free(stem, taken, j);
        let k = choose|k: nat| k <= j && is_first_free(stem, taken, k);
        assert(k <= bound && is_first_free(stem, taken, k));
    }
}

/// After `n` collisions the name carries the number `n`: where the plain name
/// and the names numbered 1 to `n - 1` are all taken and the next is not, the
/// next is the one that is picked.
pub proof fn lemma_first_free_after_collisions(stem: Seq<char>, taken: Seq<Seq<char>>, n: nat)
    requires
        forall|j: nat| j < n ==> taken.contains(#[trigger] candidate(stem, j)),
        !taken.contains(candidate(stem, n)),
    ensures
        first_free(stem, taken) == n,
{
    assert(is_first_free(stem, taken, n));
    lemma_first_free(stem, taken);
}

/// Names come out in increasing order: once the picked name is taken too,
/// the next pick has a greater number.
pub proof fn lemma_next_free_is_later(stem: Seq<char>, taken: Seq<Seq<char>>)
    ensures
        first_free(stem, taken.push(candidate(stem, first_free(stem, taken)))) > first_free(
            stem,
            taken,
        ),
{
    let k = first_free(stem, taken);
    let more = taken.push(candidate(stem, k));
    lemma_first_free(stem, taken);
    lemma_first_free(stem, more);
    let next = first_free(stem, more);
    assert(more.last() == candidate(stem, k));
    assert(more.contains(candidate(stem, k)));
    if next < k {
        let at = choose|i: int| 0 <= i < taken.len() && taken[i] == candidate(stem, next);
        assert(more[at] == candidate(stem, next));
    }
}

/// The `k`-th candidate name for `stem`.
pub fn candidate_name(stem: &str, k: usize) -> (name: String)
    ensures
        name@ == candidate(stem@, k as nat),
{
    let mut name = String::from_str(stem);
    if k == 0 {
        name.append(".png");
    } else {
        name.append(" (");
        push_decimal(&mut name, k as u128);
        name.append(").png");
    }
    name
}

/// Whether `name` is one of `list`.
pub fn contains_name(list: &Vec<String>, name: &String) -> (found: bool)
    ensures
        found == names(list@).contains(name@),
{
    let mut i: usize = 0;
    while i < list.len()
        invariant
            i <= list.len(),
            forall|j: int| 0 <= j < i ==> names(list@)[j] != name@,
        decreases list.len() - i,
    {
        if list[i] == *name {
            assert(names(list@)[i as int] == name@);
            return true;
        }
        i += 1;
    }
    false
}

/// The name under which a picture called `stem` is stored beside the files
/// `existing`: the plain name `stem.png` where that is free, else the one with
/// the smallest free number in brackets, counting from 1. The result is never
/// one of `existing`.
pub fn get_unique_path(stem: &str, existing: &Vec<String>) -> (name: String)
    ensures
        name@ == candidate(stem@, first_free(stem@, names(existing@))),
        is_first_free(stem@, names(existing@), first_free(stem@, names(existing@))),
        !names(existing@).contains(name@),
{
    let ghost taken = names(existing@);
    proof {
        lemma_first_free(stem@, taken);
    }
    let mut k: usize = 0;
    loop
        invariant
            taken == names(existing@),
            taken.len() == existing.len(),
            k <= first_free(stem@, taken) <= taken.len(),
            is_first_free(stem@, taken, first_free(stem@, taken)),
            forall|j: nat| j < k ==> taken.contains(#[trigger] candidate(stem@, j)),
        decreases taken.len() - k,
    {
        let name = candidate_name(stem, k);
        if !contains_name(existing, &name) {
            proof {
                let ff = first_free(stem@, taken);
                if (k as nat) < ff {
                    assert(taken.contains(candidate(stem@, k as nat)));
                }
            }
            return name;
        }
        proof {
            let ff = first_free(stem@, taken);
            if k as nat == ff {
                assert(false);
            }
        }
        k += 1;
    }
}

/// The extension of the temporary document.
pub const DOCUMENT_SUFFIX: &'static str = "html";

/// The file name of the temporary document made at `nanos` nanoseconds of the
/// clock, with the extension `suffix`.
pub open spec fn temp_name(nanos: nat, suffix: Seq<char>) -> Seq<char> {
    "md2png_"@ + decimal(nanos) + "."@ + suffix
}

/// Builds the file name of the temporary document.
pub fn temp_file_name(nanos: u128, suffix: &str) -> (name: String)
    ensures
        name@ == temp_name(nanos as nat, suffix@),
{
    let mut name = String::from_str("md2png_");
    push_decimal(&mut name, nanos);
    name.append(".");
    name.append(suffix);
    name
}

/// Two temporary documents made at different instants have different names.
pub proof fn lemma_temp_name_injective(a: nat, b: nat, suffix: Seq<char>)
    requires
        temp_name(a, suffix) == temp_name(b, suffix),
    ensures
        a == b,
{
    reveal_strlit("md2png_");
    reveal_strlit(".");
    let x = temp_name(a, suffix);
    let y = temp_name(b, suffix);
    let da = decimal(a);
    let db = decimal(b);
    assert(x.len() == 7 + da.len() + 1 + suffix.len());
    assert(y.len() == 7 + db.len() + 1 + suffix.len());
    assert forall|t: int| 0 <= t < da.len() implies da[t] == db[t] by {
        assert(x[7 + t] == da[t]);
        assert(y[7 + t] == db[t]);
    }
    assert(da =~= db);
    lemma_decimal_injective(a, b);
}

} // verus!
