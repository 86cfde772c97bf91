use vstd::prelude::*;

verus! {

/// How a vertex is named in a face record (`4/4/3`): its position's index,
/// counted from zero.
#[derive(Clone, Copy, Debug, PartialEq, Eq, Structural)]
pub struct VertIndexes {
    pub pos_index: usize,
}

pub open spec fn is_digit(c: char) -> bool {
    '0' <= c <= '9'
}

pub open spec fn all_digits(s: Seq<char>) -> bool {
    forall|i: int| 0 <= i < s.len() ==> is_digit(#[trigger] s[i])
}

/// Decimal value of a string of digits.
pub open spec fn digits_value(s: Seq<char>) -> int
    decreases s.len(),
{
    if s.len() == 0 {
        0
    } else {
        digits_value(s.drop_last()) * 10 + (s.last() as int - '0' as int)
    }
}

/// The number that a field of decimal digits names, if it is one that fits
/// an index.
pub open spec fn number_value(s: Seq<char>) -> Option<nat> {
    if s.len() > 0 && all_digits(s) && digits_value(s) <= usize::MAX {
        Some(digits_value(s) as nat)
    } else {
        None
    }
}

/// The fields of `s` between slashes.
pub open spec fn split_slash(s: Seq<char>) -> Seq<Seq<char>>
    decreases s.len(),
{
    if s.len() == 0 {
        seq![Seq::empty()]
    } else {
        let p = split_slash(s.drop_last());
        if s.last() == '/' {
            p.push(Seq::empty())
        } else {
            p.update(p.len() - 1, p.last().push(s.last()))
        }
    }
}

proof fn lemma_split_nonempty(s: Seq<char>)
    ensures
        1 <= split_slash(s).len() <= s.len() + 1,
    decreases s.len(),
{
    if s.len() > 0 {
        lemma_split_nonempty(s.drop_last());
    }
}

proof fn lemma_last_within(s: Seq<char>)
    ensures
        split_slash(s).last().len() <= s.len(),
    decreases s.len(),
{
    lemma_split_nonempty(s);
    if s.len() > 0 {
        lemma_last_within(s.drop_last());
        lemma_split_nonempty(s.drop_last());
    }
}

/// The position index named by a vertex reference: one to three fields of
/// decimal digits between slashes, the first counting from one.
pub open spec fn vertex_ref(s: Seq<char>) -> Option<nat> {
    let parts = split_slash(s);
    if parts.len() <= 3 && (forall|j: int|
        0 <= j < parts.len() ==> #[trigger] number_value(parts[j]) is Some) && number_value(
        parts[0],
    ).unwrap() >= 1 {
        Some((number_value(parts[0]).unwrap() - 1) as nat)
    } else {
        None
    }
}

/// Reads one vertex reference of a face record.
pub fn parse_vertex_ref(s: &str) -> (r: Option<VertIndexes>)
    ensures
        r is Some <==> vertex_ref(s@) is Some,
        r is Some ==> r.unwrap().pos_index == vertex_ref(s@).unwrap(),
{
    let len = s.unicode_len();
    let mut i: usize = 0;
    let mut nparts: u128 = 1;
    let mut prev_ok = true;
    let mut first: usize = 0;
    let mut cur_len: usize = 0;
    let mut cur_digits = true;
    let mut cur_fits = true;
    let mut cur_val: usize = 0;
    proof {
        assert(s@.subrange(0, 0) =~= Seq::<char>::empty());
    }
    while i < len
        invariant
            len == s@.len(),
            i <= len,
            nparts == split_slash(s@.subrange(0, i as int)).len(),
            1 <= nparts <= i + 1,
            prev_ok == (forall|j: int|
                0 <= j < nparts - 1 ==> #[trigger] number_value(
                    split_slash(s@.subrange(0, i as int))[j],
                ) is Some),
            nparts > 1 && prev_ok ==> first == number_value(
                split_slash(s@.subrange(0, i as int))[0],
            ).unwrap(),
            cur_len == split_slash(s@.subrange(0, i as int)).last().len(),
            cur_len <= i,
            cur_digits == all_digits(split_slash(s@.subrange(0, i as int)).last()),
            cur_digits ==> digits_value(split_slash(s@.subrange(0, i as int)).last()) >= 0,
            cur_digits ==> (cur_fits == (digits_value(split_slash(s@.subrange(0, i as int)).last())
                <= usize::MAX)),
            cur_digits && cur_fits ==> cur_val == digits_value(
                split_slash(s@.subrange(0, i as int)).last(),
            ),
        decreases len - i,
    {
        let ghost pre = s@.subrange(0, i as int);
        let ghost parts = split_slash(pre);
        let c = s.get_char(i);
        proof {
            assert(s@.subrange(0, i + 1).drop_last() =~= pre);
            assert(pre.len() == i);
            lemma_last_within(pre);
            assert(s@.subrange(0, i + 1).last() == c);
            lemma_split_nonempty(pre);
        }
        if c == '/' {
            let ok = cur_len > 0 && cur_digits && cur_fits;
            proof {
                assert(ok == (number_value(parts.last()) is Some));
            }
            if nparts == 1 {
                first = cur_val;
            }
            prev_ok = prev_ok && ok;
            nparts = nparts + 1;
            cur_len = 0;
            cur_digits = true;
            cur_fits = true;
            cur_val = 0;
            proof {
                let np = split_slash(s@.subrange(0, i + 1));
                assert(np == parts.push(Seq::empty()));
                assert(np.last() =~= Seq::<char>::empty());
                assert(prev_ok == (forall|j: int|
                    0 <= j < nparts - 1 ==> #[trigger] number_value(np[j]) is Some)) by {
                    if prev_ok {
                        assert forall|j: int| 0 <= j < nparts - 1 implies #[trigger] number_value(
                            np[j],
                        ) is Some by {
                            if j < nparts - 2 {
                                assert(np[j] == parts[j]);
                            }
                        }
                    } else {
                        if !ok {
                            assert(np[nparts - 2] == parts.last());
                        } else {
                            let j = choose|j: int|
                                0 <= j < nparts - 2 && !(#[trigger] number_value(parts[j]) is Some);
                            assert(np[j] == parts[j]);
                        }
                    }
                }
                assert(np[0] == parts[0]);
            }
        } else {
            let is_d = '0' <= c && c <= '9';
            let d: usize = if is_d {
                (c as u32 - '0' as u32) as usize
            } else {
                0
            };
            if cur_digits && is_d {
                if cur_fits && cur_val <= (usize::MAX - d) / 10 {
                    cur_val = cur_val * 10 + d;
                } else {
                    cur_fits = false;
                }
            }
            cur_digits = cur_digits && is_d;
            cur_len = cur_len + 1;
            proof {
                let np = split_slash(s@.subrange(0, i + 1));
                let last = parts.last();
                assert(np == parts.update(parts.len() - 1, last.push(c)));
                assert(np.last() == last.push(c));
                assert(last.push(c).drop_last() =~= last);
                assert(all_digits(last.push(c)) == (all_digits(last) && is_digit(c))) by {
                    if all_digits(last) && is_digit(c) {
                        assert forall|k: int| 0 <= k < last.push(c).len() implies is_digit(
                            #[trigger] last.push(c)[k],
                        ) by {
                            if k < last.len() {
                                assert(last.push(c)[k] == last[k]);
                            }
                        }
                    }
                    if all_digits(last.push(c)) {
                        assert forall|k: int| 0 <= k < last.len() implies is_digit(
                            #[trigger] last[k],
                        ) by {
                            assert(last.push(c)[k] == last[k]);
                        }
                        assert(last.push(c)[last.len() as int] == c);
                    }
                }
                assert forall|j: int| 0 <= j < nparts - 1 implies np[j] == parts[j] by {}
                assert(prev_ok == (forall|j: int|
                    0 <= j < nparts - 1 ==> #[trigger] number_value(np[j]) is Some)) by {
                    if !prev_ok {
                        let j = choose|j: int|
                            0 <= j < nparts - 1 && !(#[trigger] number_value(parts[j]) is Some);
                        assert(np[j] == parts[j]);
                    }
                }
                if nparts > 1 {
                    assert(np[0] == parts[0]);
                }
            }
        }
        i = i + 1;
    }
    proof {
        assert(s@.subrange(0, len as int) =~= s@);
    }
    let last_ok = cur_len > 0 && cur_digits && cur_fits;
    let ghost parts = split_slash(s@);
    proof {
        assert(last_ok == (number_value(parts.last()) is Some));
    }
    if nparts > 3 || !prev_ok || !last_ok {
        proof {
            if nparts <= 3 && !prev_ok {
                let j = choose|j: int|
                    0 <= j < nparts - 1 && !(#[trigger] number_value(parts[j]) is Some);
            }
        }
        return None;
    }
    let v = if nparts == 1 {
        cur_val
    } else {
        first
    };
    proof {
        assert forall|j: int| 0 <= j < parts.len() implies #[trigger] number_value(
            parts[j],
        ) is Some by {
            if j < nparts - 1 {
            } else {
                assert(parts[j] == parts.last());
            }
        }
        if nparts == 1 {
            assert(parts[0] == parts.last());
        }
    }
    if v == 0 {
        None
    } else {
        Some(VertIndexes { pos_index: v - 1 })
    }
}

/// Whether every word names a vertex.
pub open spec fn refs_ok(words: Seq<String>) -> bool {
    forall|i: int| 0 <= i < words.len() ==> #[trigger] vertex_ref(words[i]@) is Some
}

/// The vertex named by word `i`.
pub open spec fn vert_at(words: Seq<String>, i: int) -> VertIndexes {
    VertIndexes { pos_index: vertex_ref(words[i]@).unwrap() as usize }
}

/// Triangle `k` of the fan that a polygon of these words makes.
pub open spec fn fan_face(words: Seq<String>, k: int) -> Seq<VertIndexes> {
    seq![vert_at(words, 0), vert_at(words, k + 1), vert_at(words, k + 2)]
}

/// Reads the vertices of a face record (the words after `f`), splitting a
/// polygon into a fan of triangles around its first vertex. Fails on one or
/// two vertices and on a word that names no vertex.
pub fn parse_faces(words: &Vec<String>) -> (r: Option<Vec<[VertIndexes; 3]>>)
    ensures
        r is Some <==> (words@.len() != 1 && words@.len() != 2 && refs_ok(words@)),
        r is Some ==> r.unwrap()@.len() == if words@.len() == 0 {
            0
        } else {
            words@.len() - 2
        },
        r is Some ==> forall|k: int|
            0 <= k < r.unwrap()@.len() ==> (#[trigger] r.unwrap()@[k])@ == fan_face(words@, k),
{
    let n = words.len();
    if n == 0 {
        return Some(Vec::new());
    }
    if n < 3 {
        return None;
    }
    let mut verts: Vec<VertIndexes> = Vec::new();
    let mut i: usize = 0;
    while i < n
        invariant
            n == words@.len(),
            i <= n,
            verts@.len() == i,
            forall|j: int| 0 <= j < i ==> vertex_ref(#[trigger] words@[j]@) is Some,
            forall|j: int| 0 <= j < i ==> #[trigger] verts@[j] == vert_at(words@, j),
        decreases n - i,
    {
        match parse_vertex_ref(words[i].as_str()) {
            Some(v) => verts.push(v),
            None => return None,
        }
        i = i + 1;
    }
    let mut faces: Vec<[VertIndexes; 3]> = Vec::new();
    let mut k: usize = 0;
    while k + 2 < n
        invariant
            n == words@.len(),
            n >= 3,
            verts@.len() == n,
            refs_ok(words@),
            forall|j: int| 0 <= j < n ==> #[trigger] verts@[j] == vert_at(words@, j),
            faces@.len() == k,
            k + 2 <= n,
            forall|m: int| 0 <= m < k ==> (#[trigger] faces@[m])@ == fan_face(words@, m),
        decreases n - k,
    {
        let face = [verts[0], verts[k + 1], verts[k + 2]];
        assert(face@ =~= fan_face(words@, k as int));
        faces.push(face);
        k = k + 1;
    }
    Some(faces)
}

} // verus!
