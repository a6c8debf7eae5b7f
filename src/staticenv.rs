//! A static table of environment variables, laid out as the C library's
//! `environ` expects: `name=value` strings, each followed by a nul, and a
//! table of where each one starts.
use vstd::prelude::*;

verus! {

/// The byte `=`.
pub const EQUALS: u8 = 0x3d;

/// One entry of the string table: `name=value` and a nul.
pub open spec fn entry_of(name: Seq<u8>, value: Seq<u8>) -> Seq<u8> {
    name + seq![EQUALS] + value + seq![0u8]
}

/// The names and values of a prototype table.
pub open spec fn pairs_of(proto: Seq<(&[u8], &[u8])>) -> Seq<(Seq<u8>, Seq<u8>)> {
    proto.map_values(|e: (&[u8], &[u8])| (e.0@, e.1@))
}

/// The string table of the pairs `p`: their entries one after another.
pub open spec fn table_of(p: Seq<(Seq<u8>, Seq<u8>)>) -> Seq<u8>
    decreases p.len(),
{
    if p.len() == 0 {
        Seq::empty()
    } else {
        table_of(p.drop_last()) + entry_of(p.last().0, p.last().1)
    }
}

/// Whether `p` is where an entry of string table `t` starts.
pub open spec fn is_entry_start(t: Seq<u8>, p: int) -> bool {
    0 <= p < t.len() && (p == 0 || t[p - 1] == 0u8)
}

proof fn lemma_table_step(p: Seq<(Seq<u8>, Seq<u8>)>, i: int)
    requires
        0 <= i < p.len(),
    ensures
        table_of(p.take(i + 1)) == table_of(p.take(i)) + entry_of(p[i].0, p[i].1),
{
    assert(p.take(i + 1).drop_last() =~= p.take(i));
}

proof fn lemma_table_prefix_len(p: Seq<(Seq<u8>, Seq<u8>)>, i: int)
    requires
        0 <= i <= p.len(),
    ensures
        table_of(p.take(i)).len() <= table_of(p).len(),
    decreases p.len(),
{
    if i == p.len() {
        assert(p.take(i) =~= p);
    } else {
        assert(p.take(i) =~= p.drop_last().take(i));
        lemma_table_prefix_len(p.drop_last(), i);
    }
}

/// Calculate the size of the string table that [`str_table`] builds.
pub fn str_table_len(proto: &[(&[u8], &[u8])]) -> (r: usize)
    requires
        table_of(pairs_of(proto@)).len() <= usize::MAX,
    ensures
        r == table_of(pairs_of(proto@)).len(),
{
    let ghost p = pairs_of(proto@);
    let mut i: usize = 0;
    let mut len: usize = 0;
    while i < proto.len()
        invariant
            i <= proto.len(),
            p == pairs_of(proto@),
            table_of(p).len() <= usize::MAX,
            len == table_of(p.take(i as int)).len(),
        decreases proto.len() - i,
    {
        proof {
            lemma_table_step(p, i as int);
            lemma_table_prefix_len(p, i as int + 1);
        }
        len = len + proto[i].0.len() + proto[i].1.len() + 2;
        i = i + 1;
    }
    assert(p.take(i as int) =~= p);
    len
}

/// Append the bytes of `src` to `out`.
fn push_all(out: &mut Vec<u8>, src: &[u8])
    ensures
        final(out)@ == old(out)@ + src@,
{
    let mut j: usize = 0;
    while j < src.len()
        invariant
            j <= src.len(),
            out@ == old(out)@ + src@.take(j as int),
        decreases src.len() - j,
    {
        out.push(src[j]);
        assert(src@.take(j as int + 1) =~= src@.take(j as int).push(src@[j as int]));
        j = j + 1;
    }
    assert(src@.take(j as int) =~= src@);
}

/// Compile a string table: `name=value` and a nul for each pair, in order.
/// Names and values hold no nul byte.
pub fn str_table(proto: &[(&[u8], &[u8])]) -> (r: Vec<u8>)
    requires
        forall|i: int|
            0 <= i < proto@.len() ==> !(#[trigger] proto@[i]).0@.contains(0u8) && !proto@[i].1@.contains(
                0u8,
            ),
    ensures
        r@ == table_of(pairs_of(proto@)),
{
    let ghost p = pairs_of(proto@);
    let mut out: Vec<u8> = Vec::new();
    let mut i: usize = 0;
    while i < proto.len()
        invariant
            i <= proto.len(),
            p == pairs_of(proto@),
            out@ == table_of(p.take(i as int)),
        decreases proto.len() - i,
    {
        let (name, value) = proto[i];
        push_all(&mut out, name);
        out.push(EQUALS);
        push_all(&mut out, value);
        out.push(0u8);
        proof {
            lemma_table_step(p, i as int);
            assert(out@ =~= table_of(p.take(i as int)) + entry_of(name@, value@));
        }
        i = i + 1;
    }
    assert(p.take(i as int) =~= p);
    out
}

/// Compile an environment table: where each entry of string table `table`
/// starts, in order. The table is empty or ends with a nul.
pub fn env_table(table: &[u8]) -> (r: Vec<usize>)
    requires
        table@.len() == 0 || table@.last() == 0u8,
    ensures
        forall|k: int| 0 <= k < r@.len() ==> is_entry_start(table@, #[trigger] r@[k] as int),
        forall|k1: int, k2: int| 0 <= k1 < k2 < r@.len() ==> r@[k1] < r@[k2],
        forall|p: int| #[trigger] is_entry_start(table@, p) ==> r@.contains(p as usize),
{
    let mut out: Vec<usize> = Vec::new();
    let mut i: usize = 0;
    while i < table.len()
        invariant
            i <= table.len(),
            table@.len() == 0 || table@.last() == 0u8,
            i == 0 || table@[i - 1] == 0u8,
            forall|k: int|
                0 <= k < out@.len() ==> #[trigger] out@[k] < i && is_entry_start(
                    table@,
                    out@[k] as int,
                ),
            forall|k1: int, k2: int| 0 <= k1 < k2 < out@.len() ==> out@[k1] < out@[k2],
            forall|p: int| #[trigger] is_entry_start(table@, p) && p < i ==> out@.contains(p as usize),
        decreases table.len() - i,
    {
        let ghost before = out@;
        out.push(i);
        assert(out@[out@.len() - 1] == i);
        let mut j: usize = i;
        while table[j] != 0u8
            invariant
                i <= j < table.len(),
                table@.last() == 0u8,
                forall|q: int| i <= q < j ==> table@[q] != 0u8,
            decreases table.len() - j,
        {
            j = j + 1;
        }
        assert forall|p: int| #[trigger] is_entry_start(table@, p) && p < j + 1 implies out@.contains(
            p as usize,
        ) by {
            if p < i {
                assert(before.contains(p as usize));
                let k = choose|k: int| 0 <= k < before.len() && before[k] == p as usize;
                assert(out@[k] == p as usize);
            } else if p == i {
                assert(out@[out@.len() - 1] == p as usize);
            } else {
                assert(table@[p - 1] != 0u8);
            }
        }
        i = j + 1;
    }
    out
}

/// Whether the entry of string table `t` at `e` defines variable `name`: it
/// starts with `name` and `=`.
pub open spec fn defines(t: Seq<u8>, e: int, name: Seq<u8>) -> bool {
    &&& 0 <= e
    &&& e + name.len() < t.len()
    &&& t.subrange(e, e + name.len() as int) == name
    &&& t[e + name.len()] == EQUALS
}

/// Look up variable `name` in string table `table`, whose entries start at
/// `entries`: where the value of the first entry that defines it starts.
/// A name that holds `=` is invalid and has no value.
pub fn getenv_impl(table: &[u8], entries: &[usize], name: &[u8]) -> (r: Option<usize>)
    ensures
        name@.contains(EQUALS) ==> r is None,
        r is None && !name@.contains(EQUALS) ==> forall|k: int|
            0 <= k < entries@.len() ==> !defines(table@, #[trigger] entries@[k] as int, name@),
        r matches Some(v) ==> exists|k: int|
            0 <= k < entries@.len() && defines(table@, #[trigger] entries@[k] as int, name@) && v
                == entries@[k] + name@.len() + 1 && forall|j: int|
                0 <= j < k ==> !defines(table@, #[trigger] entries@[j] as int, name@),
{
    let mut i: usize = 0;
    while i < name.len()
        invariant
            i <= name.len(),
            forall|j: int| 0 <= j < i ==> name@[j] != EQUALS,
        decreases name.len() - i,
    {
        if name[i] == EQUALS {
            assert(name@.contains(EQUALS)) by {
                assert(name@[i as int] == EQUALS);
            }
            return None;
        }
        i = i + 1;
    }
    assert(!name@.contains(EQUALS));
    let mut k: usize = 0;
    while k < entries.len()
        invariant
            k <= entries.len(),
            !name@.contains(EQUALS),
            forall|j: int| 0 <= j < k ==> !defines(table@, #[trigger] entries@[j] as int, name@),
        decreases entries.len() - k,
    {
        let e = entries[k];
        if e < table.len() && name.len() < table.len() - e {
            let mut m: usize = 0;
            while m < name.len() && table[e + m] == name[m]
                invariant
                    m <= name.len(),
                    e + name.len() < table.len(),
                    forall|q: int| 0 <= q < m ==> table@[e + q] == name@[q],
                decreases name.len() - m,
            {
                m = m + 1;
            }
            if m == name.len() && table[e + m] == EQUALS {
                assert(table@.subrange(e as int, e + name.len()) =~= name@);
                return Some(e + m + 1);
            }
            assert(!defines(table@, e as int, name@)) by {
                if m < name.len() {
                    if table@.subrange(e as int, e + name.len()) == name@ {
                        assert(table@.subrange(e as int, e + name.len())[m as int] == table@[e
                            + m]);
                    }
                }
            }
        }
        k = k + 1;
    }
    None
}

/// Where the entry of pair `k` starts in the string table of the pairs `p`:
/// after the entries of the pairs before it.
pub open spec fn entry_offset(p: Seq<(Seq<u8>, Seq<u8>)>, k: int) -> int {
    table_of(p.take(k)).len() as int
}

/// Whether no name or value of the pairs `p` holds a nul byte.
pub open spec fn nul_free(p: Seq<(Seq<u8>, Seq<u8>)>) -> bool {
    forall|i: int| 0 <= i < p.len() ==> !(#[trigger] p[i]).0.contains(0u8) && !p[i].1.contains(0u8)
}

proof fn lemma_entry_bytes(name: Seq<u8>, value: Seq<u8>, j: int)
    requires
        !name.contains(0u8),
        !value.contains(0u8),
        0 <= j < entry_of(name, value).len() - 1,
    ensures
        entry_of(name, value)[j] != 0u8,
{
    if j < name.len() {
        assert(entry_of(name, value)[j] == name[j]);
    } else if j == name.len() {
        assert(entry_of(name, value)[j] == EQUALS);
    } else {
        assert(entry_of(name, value)[j] == value[j - name.len() - 1]);
    }
}

/// In the string table of pairs whose names and values hold no nul byte,
/// entries start exactly where the pairs' entries were placed: the table
/// that [`env_table`] compiles from [`str_table`]'s output has one entry
/// per pair, in order.
pub proof fn lemma_entry_starts(p: Seq<(Seq<u8>, Seq<u8>)>, q: int)
    requires
        nul_free(p),
    ensures
        is_entry_start(table_of(p), q) <==> exists|k: int|
            0 <= k < p.len() && q == #[trigger] entry_offset(p, k),
    decreases p.len(),
{
    if p.len() > 0 {
        let pre = p.drop_last();
        let n = p.len() - 1;
        let t = table_of(p);
        let t0 = table_of(pre);
        let e = entry_of(p.last().0, p.last().1);
        assert(t == t0 + e);
        assert(nul_free(pre)) by {
            assert forall|i: int| 0 <= i < pre.len() implies !(#[trigger] pre[i]).0.contains(0u8)
                && !pre[i].1.contains(0u8) by {
                assert(pre[i] == p[i]);
            }
        }
        assert(p.take(n) =~= pre);
        assert(entry_offset(p, n) == t0.len());
        assert forall|k: int| 0 <= k < n implies #[trigger] entry_offset(p, k) == entry_offset(pre, k) by {
            assert(p.take(k) =~= pre.take(k));
        }
        lemma_entry_starts(pre, q);
        if 0 <= q < t0.len() {
            if is_entry_start(t0, q) {
                let k = choose|k: int| 0 <= k < pre.len() && q == #[trigger] entry_offset(pre, k);
                assert(q == entry_offset(p, k));
            }
            if exists|k: int| 0 <= k < p.len() && q == #[trigger] entry_offset(p, k) {
                let k = choose|k: int| 0 <= k < p.len() && q == #[trigger] entry_offset(p, k);
                assert(k != n);
                assert(q == entry_offset(pre, k));
            }
        } else if q == t0.len() {
            if t0.len() > 0 {
                let l = t0.len() - 1;
                lemma_table_nonempty_ends_with_nul(pre);
                assert(t[q - 1] == t0[l]);
            }
        } else if t0.len() < q < t.len() {
            lemma_entry_bytes(p.last().0, p.last().1, q - 1 - t0.len());
            assert(t[q - 1] == e[q - 1 - t0.len()]);
            assert forall|k: int| 0 <= k < p.len() implies q != #[trigger] entry_offset(p, k) by {
                if k < n {
                    lemma_table_prefix_len(pre, k);
                }
            }
        } else {
            assert forall|k: int| 0 <= k < p.len() implies q != #[trigger] entry_offset(p, k) by {
                if k < n {
                    lemma_table_prefix_len(pre, k);
                }
            }
        }
    }
}

proof fn lemma_table_nonempty_ends_with_nul(p: Seq<(Seq<u8>, Seq<u8>)>)
    requires
        table_of(p).len() > 0,
    ensures
        table_of(p).last() == 0u8,
    decreases p.len(),
{
    let e = entry_of(p.last().0, p.last().1);
    assert(table_of(p) == table_of(p.drop_last()) + e);
}

} // verus!
