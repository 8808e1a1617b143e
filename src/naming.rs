//! Folder names for new instances: the requested name, or the name with the
//! first free counter `" (N)"` appended.
use vstd::prelude::*;
use vstd::string::*;

verus! {

broadcast use vstd::std_specs::vec::group_vec_axioms;

pub open spec fn digit_char(d: nat) -> char {
    if d == 0 {
        '0'
    } else if d == 1 {
        '1'
    } else if d == 2 {
        '2'
    } else if d == 3 {
        '3'
    } else if d == 4 {
        '4'
    } else if d == 5 {
        '5'
    } else if d == 6 {
        '6'
    } else if d == 7 {
        '7'
    } else if d == 8 {
        '8'
    } else {
        '9'
    }
}

/// The decimal digits of `n`, without leading zeros.
pub open spec fn decimal(n: nat) -> Seq<char>
    decreases n,
{
    if n < 10 {
        seq![digit_char(n)]
    } else {
        decimal(n / 10) + seq![digit_char(n % 10)]
    }
}

/// The `k`-th folder name tried for `name`: the name itself, then
/// `"name (1)"`, `"name (2)"`, ...
pub open spec fn candidate(name: Seq<char>, k: nat) -> Seq<char> {
    if k == 0 {
        name
    } else {
        name + seq![' ', '('] + decimal(k) + seq![')']
    }
}

/// `k` is the first counter whose folder name is not taken.
pub open spec fn is_first_free(name: Seq<char>, taken: Set<Seq<char>>, k: nat) -> bool {
    &&& !taken.contains(candidate(name, k))
    &&& forall|j: nat| j < k ==> taken.contains(candidate(name, j))
}

/// The folder name that a new instance called `name` receives beside the
/// names in `taken`.
pub open spec fn folder_for(name: Seq<char>, taken: Set<Seq<char>>) -> Seq<char> {
    candidate(name, choose|k: nat| is_first_free(name, taken, k))
}

/// The names that a list of texts holds.
pub open spec fn names_of(v: Seq<String>) -> Set<Seq<char>> {
    v.map_values(|s: String| s@).to_set()
}

pub proof fn lemma_decimal_len(n: nat)
    ensures
        decimal(n).len() >= 1,
        n >= 10 ==> decimal(n).len() >= 2,
    decreases n,
{
    if n >= 10 {
        lemma_decimal_len(n / 10);
    }
}

pub proof fn lemma_decimal_injective(a: nat, b: nat)
    requires
        decimal(a) == decimal(b),
    ensures
        a == b,
    decreases a,
{
    lemma_decimal_len(a);
    lemma_decimal_len(b);
    if a >= 10 && b >= 10 {
        let s = decimal(a);
        assert(s.last() == digit_char(a % 10));
        assert(decimal(b).last() == digit_char(b % 10));
        assert(s.drop_last() =~= decimal(a / 10));
        assert(decimal(b).drop_last() =~= decimal(b / 10));
        lemma_decimal_injective(a / 10, b / 10);
    } else if a < 10 && b < 10 {
        assert(decimal(a)[0] == digit_char(a));
        assert(decimal(b)[0] == digit_char(b));
    }
}

/// Distinct counters give distinct folder names.
pub proof fn lemma_candidate_injective(name: Seq<char>, j: nat, k: nat)
    requires
        candidate(name, j) == candidate(name, k),
    ensures
        j == k,
{
    lemma_decimal_len(j);
    lemma_decimal_len(k);
    if j > 0 && k > 0 {
        let n = name.len() as int + 2;
        let cj = candidate(name, j);
        let ck = candidate(name, k);
        assert(cj.subrange(n, cj.len() - 1) =~= decimal(j));
        assert(ck.subrange(n, ck.len() - 1) =~= decimal(k));
        lemma_decimal_injective(j, k);
    } else if j > 0 {
        assert(candidate(name, j).len() > name.len());
    } else if k > 0 {
        assert(candidate(name, k).len() > name.len());
    }
}

/// At most one counter is the first free one.
pub proof fn lemma_first_free_unique(name: Seq<char>, taken: Set<Seq<char>>, k: nat)
    requires
        is_first_free(name, taken, k),
    ensures
        folder_for(name, taken) == candidate(name, k),
{
    let c = choose|i: nat| is_first_free(name, taken, i);
    assert(is_first_free(name, taken, c));
    if c < k {
        assert(taken.contains(candidate(name, c)));
    } else if c > k {
        assert(taken.contains(candidate(name, k)));
    }
}

fn digit_text(d: usize) -> (r: &'static str)
    requires
        d < 10,
    ensures
        r@ == seq![digit_char(d as nat)],
{
    if d == 0 {
        proof { reveal_strlit("0"); }
        "0"
    } else if d == 1 {
        proof { reveal_strlit("1"); }
        "1"
    } else if d == 2 {
        proof { reveal_strlit("2"); }
        "2"
    } else if d == 3 {
        proof { reveal_strlit("3"); }
        "3"
    } else if d == 4 {
        proof { reveal_strlit("4"); }
        "4"
    } else if d == 5 {
        proof { reveal_strlit("5"); }
        "5"
    } else if d == 6 {
        proof { reveal_strlit("6"); }
        "6"
    } else if d == 7 {
        proof { reveal_strlit("7"); }
        "7"
    } else if d == 8 {
        proof { reveal_strlit("8"); }
        "8"
    } else {
        proof { reveal_strlit("9"); }
        "9"
    }
}

/// The decimal text of `n`.
pub fn decimal_text(n: usize) -> (r: String)
    ensures
        r@ == decimal(n as nat),
    decreases n,
{
    if n < 10 {
        String::from_str(digit_text(n))
    } else {
        let mut s = decimal_text(n / 10);
        s.append(digit_text(n % 10));
        s
    }
}

/// The `k`-th folder name tried for `name`.
pub fn candidate_text(name: &str, k: usize) -> (r: String)
    ensures
        r@ == candidate(name@, k as nat),
{
    let mut s = String::from_str(name);
    if k > 0 {
        proof { reveal_strlit(" ("); reveal_strlit(")"); }
        s.append(" (");
        let d = decimal_text(k);
        s.append(d.as_str());
        s.append(")");
    }
    s
}

/// Whether `v` holds a text equal to `s`.
fn holds_name(v: &Vec<String>, s: &String) -> (r: bool)
    ensures
        r == names_of(v@).contains(s@),
{
    let ghost views = v@.map_values(|t: String| t@);
    let mut i: usize = 0;
    while i < v.len()
        invariant
            i <= v@.len(),
            views == v@.map_values(|t: String| t@),
            forall|j: int| 0 <= j < i ==> v@[j]@ != s@,
        decreases v@.len() - i,
    {
        if v[i] == *s {
            assert(views[i as int] == s@);
            return true;
        }
        i = i + 1;
    }
    assert(!views.contains(s@)) by {
        if views.contains(s@) {
            let j = choose|j: int| 0 <= j < views.len() && views[j] == s@;
            assert(v@[j]@ == s@);
        }
    }
    false
}

/// The folder name for a new instance called `name`, where the instances
/// directory already holds the entries `taken`: the name itself if it is
/// free, else the name with the first free counter `" (N)"`, counting from 1.
pub fn unique_folder_name(name: &str, taken: &Vec<String>) -> (r: String)
    ensures
        r@ == folder_for(name@, names_of(taken@)),
        !names_of(taken@).contains(r@),
{
    let ghost all = names_of(taken@);
    let ghost mut seen: Set<Seq<char>> = Set::empty();
    proof {
        taken@.map_values(|t: String| t@).lemma_cardinality_of_set();
    }
    let n = taken.len();
    let mut counter: usize = 0;
    let mut folder = candidate_text(name, 0);
    while holds_name(taken, &folder)
        invariant
            folder@ == candidate(name@, counter as nat),
            forall|j: nat| j < counter ==> all.contains(candidate(name@, j)),
            seen.finite(),
            seen.len() == counter,
            seen.subset_of(all),
            forall|c: Seq<char>| seen.contains(c) ==> exists|j: nat| j < counter && c == candidate(name@, j),
            all == names_of(taken@),
            all.len() <= taken@.len(),
            all.finite(),
            n == taken@.len(),
        decreases taken@.len() - counter,
    {
        proof {
            if seen.contains(folder@) {
                let j = choose|j: nat| j < counter && folder@ == candidate(name@, j);
                lemma_candidate_injective(name@, j, counter as nat);
            }
            seen = seen.insert(folder@);
            vstd::set_lib::lemma_len_subset(seen, all);
            assert(seen.len() == counter + 1);
        }
        counter = counter + 1;
        folder = candidate_text(name, counter);
    }
    proof {
        lemma_first_free_unique(name@, all, counter as nat);
    }
    folder
}

} // verus!
