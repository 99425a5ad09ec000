use vstd::prelude::*;

verus! {

/// The lowercase hexadecimal digit of a nibble.
pub open spec fn nibble_char(n: nat) -> char {
    seq!['0', '1', '2', '3', '4', '5', '6', '7', '8', '9', 'a', 'b', 'c', 'd', 'e', 'f'][n as int]
}

/// Two lowercase hexadecimal digits per byte, high nibble first.
pub open spec fn hex_of(b: Seq<u8>) -> Seq<char>
    decreases b.len(),
{
    if b.len() == 0 {
        Seq::empty()
    } else {
        seq![nibble_char(b[0] as nat / 16), nibble_char(b[0] as nat % 16)] + hex_of(b.skip(1))
    }
}

/// The Move byte-string literal of `b`: `x"` followed by its hex digits and `"`.
pub open spec fn literal_of(b: Seq<u8>) -> Seq<char> {
    seq!['x', '"'] + hex_of(b) + seq!['"']
}

/// The literals of `bs`, in order, separated by commas.
pub open spec fn join_literals(bs: Seq<Seq<u8>>) -> Seq<char>
    decreases bs.len(),
{
    if bs.len() == 0 {
        Seq::empty()
    } else if bs.len() == 1 {
        literal_of(bs[0])
    } else {
        join_literals(bs.drop_last()) + seq![','] + literal_of(bs.last())
    }
}

pub open spec fn vector_open() -> Seq<char> {
    seq!['v', 'e', 'c', 't', 'o', 'r', '[']
}

/// The Move vector literal of `bs`: `vector[`, the joined literals, `]`.
pub open spec fn array_literal_of(bs: Seq<Seq<u8>>) -> Seq<char> {
    vector_open() + join_literals(bs) + seq![']']
}

/// The byte strings that a vector of byte vectors holds.
pub open spec fn byte_views(items: Seq<Vec<u8>>) -> Seq<Seq<u8>> {
    items.map_values(|v: Vec<u8>| v@)
}

/// The value of a hexadecimal digit of either case.
pub open spec fn nibble_value(c: char) -> Option<nat> {
    if '0' <= c && c <= '9' {
        Some((c as nat - '0' as nat) as nat)
    } else if 'a' <= c && c <= 'f' {
        Some((c as nat - 'a' as nat + 10) as nat)
    } else if 'A' <= c && c <= 'F' {
        Some((c as nat - 'A' as nat + 10) as nat)
    } else {
        None
    }
}

/// The bytes that a string of hexadecimal digit pairs spells, if it is one.
pub open spec fn hex_decode(h: Seq<char>) -> Option<Seq<u8>>
    decreases h.len(),
{
    if h.len() == 0 {
        Some(Seq::empty())
    } else if h.len() == 1 {
        None
    } else {
        match (nibble_value(h[0]), nibble_value(h[1]), hex_decode(h.skip(2))) {
            (Some(hi), Some(lo), Some(rest)) => Some(seq![(hi * 16 + lo) as u8] + rest),
            _ => None,
        }
    }
}

/// How Move's lexer reads a byte-string literal `x"..."`.
pub open spec fn decode_literal(t: Seq<char>) -> Option<Seq<u8>> {
    if t.len() >= 3 && t[0] == 'x' && t[1] == '"' && t.last() == '"' {
        hex_decode(t.subrange(2, t.len() - 1))
    } else {
        None
    }
}

/// Relies on `hex::encode`: two lowercase hexadecimal digits per byte, high
/// nibble first.
#[verifier::external_body]
fn hex_encode(b: &Vec<u8>) -> (r: String)
    ensures
        r@ == hex_of(b@),
{
    hex::encode(b)
}

/// Renders bytes as a Move byte-string literal, `x"<hex>"`.
pub fn to_aptos_move_bytes_expr(b: &Vec<u8>) -> (r: String)
    ensures
        r@ == literal_of(b@),
{
    let h = hex_encode(b);
    let mut s = String::from_str("x\"");
    s.append(h.as_str());
    s.append("\"");
    proof {
        reveal_strlit("x\"");
        reveal_strlit("\"");
    }
    assert(s@ =~= literal_of(b@));
    s
}

/// Renders a sequence of byte strings as a Move vector of byte-string
/// literals, in the given order.
pub fn to_aptos_move_bytes_arr_expr(items: &Vec<Vec<u8>>) -> (r: String)
    ensures
        r@ == array_literal_of(byte_views(items@)),
{
    let ghost bs = byte_views(items@);
    let mut out = String::from_str("vector[");
    proof {
        reveal_strlit("vector[");
        reveal_strlit(",");
        reveal_strlit("]");
        assert(bs.take(0) =~= Seq::<Seq<u8>>::empty());
    }
    let mut i: usize = 0;
    while i < items.len()
        invariant
            bs == byte_views(items@),
            i <= items@.len(),
            out@ == vector_open() + join_literals(bs.take(i as int)),
        decreases items@.len() - i,
    {
        proof {
            reveal_strlit(",");
        }
        if i > 0 {
            out.append(",");
        }
        let lit = to_aptos_move_bytes_expr(&items[i]);
        out.append(lit.as_str());
        proof {
            let next = bs.take(i as int + 1);
            assert(next.drop_last() =~= bs.take(i as int));
            assert(next.last() == items@[i as int]@);
            if i == 0 {
                assert(join_literals(next) == literal_of(next[0]));
                assert(out@ =~= vector_open() + join_literals(next));
            } else {
                assert(join_literals(next) == join_literals(bs.take(i as int)) + seq![',']
                    + literal_of(next.last()));
                assert(out@ =~= vector_open() + join_literals(next));
            }
        }
        i = i + 1;
    }
    proof {
        reveal_strlit("]");
    }
    out.append("]");
    assert(bs.take(items@.len() as int) =~= bs);
    assert(out@ =~= array_literal_of(bs));
    out
}

proof fn lemma_nibble_round_trip(n: nat)
    requires
        n < 16,
    ensures
        nibble_value(nibble_char(n)) == Some(n),
{
    let t = seq!['0', '1', '2', '3', '4', '5', '6', '7', '8', '9', 'a', 'b', 'c', 'd', 'e', 'f'];
    assert(t[0] == '0' && t[1] == '1' && t[2] == '2' && t[3] == '3');
    assert(t[4] == '4' && t[5] == '5' && t[6] == '6' && t[7] == '7');
    assert(t[8] == '8' && t[9] == '9' && t[10] == 'a' && t[11] == 'b');
    assert(t[12] == 'c' && t[13] == 'd' && t[14] == 'e' && t[15] == 'f');
}

proof fn lemma_hex_round_trip(b: Seq<u8>)
    ensures
        hex_decode(hex_of(b)) == Some(b),
    decreases b.len(),
{
    if b.len() == 0 {
        assert(hex_of(b) =~= Seq::<char>::empty());
    } else {
        let x = b[0] as nat;
        lemma_hex_round_trip(b.skip(1));
        lemma_nibble_round_trip(x / 16);
        lemma_nibble_round_trip(x % 16);
        let h = hex_of(b);
        assert(h.skip(2) =~= hex_of(b.skip(1)));
        assert(((x / 16) * 16 + x % 16) as u8 == b[0]);
        assert(seq![b[0]] + b.skip(1) =~= b);
    }
}

/// Reading back the literal that `to_aptos_move_bytes_expr` renders gives
/// exactly the bytes it was made from.
pub proof fn lemma_literal_round_trip(b: Seq<u8>)
    ensures
        decode_literal(literal_of(b)) == Some(b),
{
    let t = literal_of(b);
    assert(t.subrange(2, t.len() - 1) =~= hex_of(b));
    lemma_hex_round_trip(b);
}

/// The vector literal of three byte strings lists their literals in the
/// order given, left to right.
pub proof fn lemma_array_keeps_order(a: Seq<u8>, b: Seq<u8>, c: Seq<u8>)
    ensures
        array_literal_of(seq![a, b, c]) == vector_open() + literal_of(a) + seq![','] + literal_of(b)
            + seq![','] + literal_of(c) + seq![']'],
{
    let s = seq![a, b, c];
    assert(s.drop_last() =~= seq![a, b]);
    assert(seq![a, b].drop_last() =~= seq![a]);
    assert(join_literals(seq![a]) == literal_of(a));
    assert(join_literals(seq![a, b]) == literal_of(a) + seq![','] + literal_of(b));
    assert(join_literals(s) == literal_of(a) + seq![','] + literal_of(b) + seq![','] + literal_of(c));
    assert(array_literal_of(s) =~= vector_open() + literal_of(a) + seq![','] + literal_of(b)
        + seq![','] + literal_of(c) + seq![']']);
}

/// Joining two runs of byte strings one after the other gives the literals of
/// the first run, a comma, then those of the second: order is kept.
pub proof fn lemma_join_keeps_order(a: Seq<Seq<u8>>, b: Seq<Seq<u8>>)
    requires
        a.len() > 0,
        b.len() > 0,
    ensures
        join_literals(a + b) == join_literals(a) + seq![','] + join_literals(b),
    decreases b.len(),
{
    let ab = a + b;
    if b.len() == 1 {
        assert(ab.drop_last() =~= a);
        assert(ab.last() == b[0]);
    } else {
        let b0 = b.drop_last();
        assert(ab.drop_last() =~= a + b0);
        assert(ab.last() == b.last());
        lemma_join_keeps_order(a, b0);
        assert(join_literals(ab) =~= join_literals(a) + seq![','] + join_literals(b));
    }
}

} // verus!
