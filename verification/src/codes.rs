use vstd::prelude::*;

verus! {

/// The codes of a sequence, as a set.
pub open spec fn code_set(codes: Seq<u32>) -> Set<u32> {
    codes.to_set()
}

/// Each code is smaller than the next: the sequence is sorted and holds no code twice.
pub open spec fn strictly_increasing(codes: Seq<u32>) -> bool {
    forall|i: int, j: int| 0 <= i < j < codes.len() ==> codes[i] < codes[j]
}

proof fn lemma_push_to_set(s: Seq<u32>, x: u32)
    ensures
        s.push(x).to_set() == s.to_set().insert(x),
{
    assert forall|y: u32| s.push(x).to_set().contains(y) <==> s.to_set().insert(x).contains(y) by {
        if s.push(x).contains(y) {
            let k = choose|k: int| 0 <= k < s.push(x).len() && s.push(x)[k] == y;
            if k < s.len() {
                assert(s[k] == y);
            }
        }
        if s.contains(y) {
            let k = choose|k: int| 0 <= k < s.len() && s[k] == y;
            assert(s.push(x)[k] == y);
        }
        if y == x {
            assert(s.push(x)[s.len() as int] == y);
        }
    }
    assert(s.push(x).to_set() =~= s.to_set().insert(x));
}

/// Inserts a code into a strictly increasing list of codes, keeping it strictly increasing.
pub fn sorted_insert(codes: &mut Vec<u32>, code: u32)
    requires
        strictly_increasing(old(codes)@),
    ensures
        strictly_increasing(final(codes)@),
        code_set(final(codes)@) == code_set(old(codes)@).insert(code),
{
    let ghost before = codes@;
    let mut i: usize = 0;
    while i < codes.len() && codes[i] < code
        invariant
            codes@ == before,
            strictly_increasing(before),
            0 <= i <= before.len(),
            forall|k: int| 0 <= k < i ==> before[k] < code,
        decreases before.len() - i,
    {
        i = i + 1;
    }
    if i < codes.len() && codes[i] == code {
        assert(code_set(before).insert(code) =~= code_set(before)) by {
            assert(before.contains(code)) by {
                assert(before[i as int] == code);
            }
        }
        return;
    }
    codes.insert(i, code);
    let ghost after = codes@;
    assert(after == before.insert(i as int, code));
    assert forall|a: int, b: int| 0 <= a < b < after.len() implies after[a] < after[b] by {
        if b < i {
        } else if b == i {
        } else if a < i {
            assert(after[b] == before[b - 1]);
            assert(before[b - 1] >= code);
        } else if a == i {
            assert(after[b] == before[b - 1]);
        } else {
            assert(after[a] == before[a - 1]);
            assert(after[b] == before[b - 1]);
        }
    }
    assert forall|y: u32| after.contains(y) <==> (before.contains(y) || y == code) by {
        if after.contains(y) {
            let k = choose|k: int| 0 <= k < after.len() && after[k] == y;
            if k < i {
                assert(before[k] == y);
            } else if k > i {
                assert(before[k - 1] == y);
            }
        }
        if before.contains(y) {
            let k = choose|k: int| 0 <= k < before.len() && before[k] == y;
            if k < i {
                assert(after[k] == y);
            } else {
                assert(after[k + 1] == y);
            }
        }
        if y == code {
            assert(after[i as int] == y);
        }
    }
    assert(code_set(after) =~= code_set(before).insert(code));
}

/// Removes a code from a strictly increasing list of codes, keeping it strictly increasing.
pub fn sorted_remove(codes: &mut Vec<u32>, code: u32)
    requires
        strictly_increasing(old(codes)@),
    ensures
        strictly_increasing(final(codes)@),
        code_set(final(codes)@) == code_set(old(codes)@).remove(code),
{
    let ghost before = codes@;
    let mut i: usize = 0;
    while i < codes.len() && codes[i] != code
        invariant
            codes@ == before,
            0 <= i <= before.len(),
            forall|k: int| 0 <= k < i ==> before[k] != code,
        decreases before.len() - i,
    {
        i = i + 1;
    }
    if i == codes.len() {
        assert(code_set(before).remove(code) =~= code_set(before));
        return;
    }
    codes.remove(i);
    let ghost after = codes@;
    assert(after == before.remove(i as int));
    assert forall|a: int, b: int| 0 <= a < b < after.len() implies after[a] < after[b] by {
        if a < i && b >= i {
            assert(after[b] == before[b + 1]);
        } else if a >= i {
            assert(after[a] == before[a + 1]);
            assert(after[b] == before[b + 1]);
        }
    }
    assert forall|y: u32| after.contains(y) <==> (before.contains(y) && y != code) by {
        if after.contains(y) {
            let k = choose|k: int| 0 <= k < after.len() && after[k] == y;
            if k < i {
                assert(before[k] == y);
            } else {
                assert(before[k + 1] == y);
                assert(before[i as int] < before[k + 1]);
            }
        }
        if before.contains(y) && y != code {
            let k = choose|k: int| 0 <= k < before.len() && before[k] == y;
            if k < i {
                assert(after[k] == y);
            } else {
                assert(k != i);
                assert(after[k - 1] == y);
            }
        }
    }
    assert(code_set(after) =~= code_set(before).remove(code));
}

/// The codes of a list, sorted and without repeats.
pub fn sorted_code_set(codes: &Vec<u32>) -> (r: Vec<u32>)
    ensures
        strictly_increasing(r@),
        code_set(r@) == code_set(codes@),
{
    let mut r: Vec<u32> = Vec::new();
    let mut i: usize = 0;
    assert(codes@.subrange(0, 0).to_set() =~= r@.to_set());
    while i < codes.len()
        invariant
            0 <= i <= codes.len(),
            strictly_increasing(r@),
            code_set(r@) == code_set(codes@.subrange(0, i as int)),
        decreases codes.len() - i,
    {
        sorted_insert(&mut r, codes[i]);
        proof {
            assert(codes@.subrange(0, i + 1) == codes@.subrange(0, i as int).push(codes@[i as int]));
            lemma_push_to_set(codes@.subrange(0, i as int), codes@[i as int]);
        }
        i = i + 1;
    }
    assert(codes@.subrange(0, codes.len() as int) == codes@);
    r
}

} // verus!
