use vstd::prelude::*;

verus! {

/// What follows the last `sep` in `t`, or all of `t` when `sep` does not
/// occur in it.
pub open spec fn after_last(t: Seq<char>, sep: char) -> Seq<char>
    decreases t.len(),
{
    if t.len() == 0 {
        t
    } else if t.last() == sep {
        Seq::empty()
    } else {
        after_last(t.drop_last(), sep).push(t.last())
    }
}

/// Whether `sep` occurs in `t`.
pub open spec fn occurs(t: Seq<char>, sep: char) -> bool {
    exists|i: int| 0 <= i < t.len() && t[i] == sep
}

/// What follows the last `sep` in `text`, and whether `sep` occurs in it.
pub fn split_after_last(text: &String, sep: char) -> (r: (String, bool))
    ensures
        r.0@ == after_last(text@, sep),
        r.1 == occurs(text@, sep),
{
    let t = text.as_str();
    let n = t.unicode_len();
    let mut start: usize = 0;
    let mut found = false;
    let mut i: usize = 0;
    assert(text@.subrange(0, 0) =~= Seq::<char>::empty());
    while i < n
        invariant
            n == text@.len(),
            t@ == text@,
            start <= i <= n,
            after_last(text@.subrange(0, i as int), sep) == text@.subrange(start as int, i as int),
            found == occurs(text@.subrange(0, i as int), sep),
        decreases n - i,
    {
        let c = t.get_char(i);
        let ghost pre = text@.subrange(0, i as int);
        let ghost next = text@.subrange(0, i + 1);
        assert(next.drop_last() =~= pre);
        assert(next.last() == c);
        if c == sep {
            start = i + 1;
            found = true;
            assert(text@.subrange(start as int, i + 1) =~= Seq::<char>::empty());
            assert(next[i as int] == sep);
        } else {
            assert(text@.subrange(start as int, i + 1) =~= text@.subrange(start as int, i as int).push(c));
            proof {
                if found {
                    let k = choose|k: int| 0 <= k < pre.len() && pre[k] == sep;
                    assert(next[k] == sep);
                } else {
                    assert forall|k: int| 0 <= k < next.len() implies next[k] != sep by {
                        if k < i {
                            assert(next[k] == pre[k]);
                        }
                    }
                }
            }
        }
        i = i + 1;
    }
    assert(text@.subrange(0, n as int) =~= text@);
    (String::from_str(t.substring_char(start, n)), found)
}

} // verus!
