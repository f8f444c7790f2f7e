//! The batch staging format.
//!
//! A bulk operation serializes many requests into one staging file and then
//! issues a single "load state from file" request naming that file. The file
//! holds one record per request, in input order: a JSON object with an `id`
//! field and a `content` field, followed by a newline and a NUL byte. The id
//! is derived from the request's position in the batch — the caller's
//! application name, uppercased, a dash, and the decimal index — and is
//! therefore unique within the batch.
//!
//! The record framing and the ids are built and proved here; only the JSON
//! encoding of a request's content is taken from the outside encoder.

use vstd::prelude::*;

verus! {

/// The line terminator's first byte.
pub const NEWLINE: u8 = 10;

/// The line terminator's second byte.
pub const NUL: u8 = 0;

/// The separator between an id's prefix and its decimal index.
pub const DASH: u8 = 45;

/// The one non-alphanumeric byte besides the dash that an id prefix may hold.
pub const UNDERSCORE: u8 = 95;

/// The bytes `{"id":"` that open a record.
pub open spec fn record_head() -> Seq<u8> {
    seq![123u8, 34u8, 105u8, 100u8, 34u8, 58u8, 34u8]
}

/// The bytes `","content":` between a record's id and its content.
pub open spec fn record_mid() -> Seq<u8> {
    seq![34u8, 44u8, 34u8, 99u8, 111u8, 110u8, 116u8, 101u8, 110u8, 116u8, 34u8, 58u8]
}

/// The byte `}` that closes a record.
pub open spec fn record_tail() -> Seq<u8> {
    seq![125u8]
}

/// Free of the two terminator bytes, so that embedding the bytes in a line
/// cannot split it.
pub open spec fn clean(s: Seq<u8>) -> bool {
    forall|i: int| 0 <= i < s.len() ==> s[i] != NEWLINE && s[i] != NUL
}

/// ASCII uppercasing of one byte.
pub open spec fn upper_byte(b: u8) -> u8 {
    if 97 <= b <= 122 {
        (b - 32) as u8
    } else {
        b
    }
}

/// ASCII uppercasing of a byte sequence.
pub open spec fn upper_seq(s: Seq<u8>) -> Seq<u8> {
    Seq::new(s.len(), |i: int| upper_byte(s[i]))
}

/// The ASCII digit for one decimal digit value.
pub open spec fn digit_byte(d: nat) -> u8
    recommends
        d < 10,
{
    (48 + d) as u8
}

/// The decimal rendering of a number, most significant digit first.
pub open spec fn dec_seq(n: nat) -> Seq<u8>
    decreases n,
{
    if n < 10 {
        seq![digit_byte(n)]
    } else {
        dec_seq(n / 10).push(digit_byte(n % 10))
    }
}

/// The id of the `n`-th request of a batch: the uppercased prefix, a dash,
/// and the decimal index.
pub open spec fn id_seq(prefix: Seq<u8>, n: nat) -> Seq<u8> {
    upper_seq(prefix) + seq![DASH] + dec_seq(n)
}

/// A byte an id prefix may hold: ASCII alphanumeric, dash or underscore.
pub open spec fn id_byte_ok(b: u8) -> bool {
    (48 <= b <= 57) || (65 <= b <= 90) || (97 <= b <= 122) || b == DASH || b == UNDERSCORE
}

/// An application-name prefix: every byte alphanumeric, dash or underscore.
pub open spec fn prefix_ok(s: Seq<u8>) -> bool {
    forall|i: int| 0 <= i < s.len() ==> id_byte_ok(#[trigger] s[i])
}

/// One staging record: `{"id":"<id>","content":<json>}`.
pub open spec fn record_seq(id: Seq<u8>, json: Seq<u8>) -> Seq<u8> {
    record_head() + id + record_mid() + json + record_tail()
}

/// One staging line: a record followed by a newline and a NUL byte.
pub open spec fn line_seq(rec: Seq<u8>) -> Seq<u8> {
    rec + seq![NEWLINE, NUL]
}

/// The whole staging file for content encodings `jsons`, the first of which
/// gets index `k`: one line per request, in order.
pub open spec fn batch_seq(prefix: Seq<u8>, jsons: Seq<Seq<u8>>, k: nat) -> Seq<u8>
    decreases jsons.len(),
{
    if jsons.len() == 0 {
        Seq::empty()
    } else {
        line_seq(record_seq(id_seq(prefix, k), jsons[0])) + batch_seq(
            prefix,
            jsons.drop_first(),
            (k + 1) as nat,
        )
    }
}

/// How often a byte value occurs in a sequence.
pub open spec fn count_byte(s: Seq<u8>, b: u8) -> nat
    decreases s.len(),
{
    if s.len() == 0 {
        0
    } else {
        (if s[0] == b {
            1nat
        } else {
            0nat
        }) + count_byte(s.drop_first(), b)
    }
}

/// Renders a number in decimal, most significant digit first.
pub fn render_decimal(n: usize) -> (r: Vec<u8>)
    ensures
        r@ == dec_seq(n as nat),
    decreases n,
{
    if n < 10 {
        let mut out: Vec<u8> = Vec::new();
        out.push((48 + n) as u8);
        proof {
            assert(out@ =~= seq![digit_byte(n as nat)]);
        }
        out
    } else {
        let mut out = render_decimal(n / 10);
        out.push((48 + n % 10) as u8);
        proof {
            assert(out@ =~= dec_seq(n as nat));
        }
        out
    }
}

/// Builds the id of the request at position `idx` of a batch.
pub fn request_id(prefix: &[u8], idx: usize) -> (r: Vec<u8>)
    ensures
        r@ == id_seq(prefix@, idx as nat),
{
    let mut out: Vec<u8> = Vec::new();
    let mut i: usize = 0;
    while i < prefix.len()
        invariant
            i <= prefix@.len(),
            out@ == upper_seq(prefix@.subrange(0, i as int)),
        decreases prefix@.len() - i,
    {
        let b = prefix[i];
        if 97 <= b && b <= 122 {
            out.push(b - 32);
        } else {
            out.push(b);
        }
        i = i + 1;
        proof {
            assert(out@ =~= upper_seq(prefix@.subrange(0, i as int)));
        }
    }
    proof {
        assert(prefix@.subrange(0, prefix@.len() as int) =~= prefix@);
    }
    out.push(DASH);
    let mut digits = render_decimal(idx);
    out.append(&mut digits);
    proof {
        assert(out@ =~= id_seq(prefix@, idx as nat));
    }
    out
}

/// Frames one staging record around an id and a content encoding.
pub fn build_record(id: Vec<u8>, json: Vec<u8>) -> (r: Vec<u8>)
    ensures
        r@ == record_seq(id@, json@),
{
    let ghost id0 = id@;
    let ghost json0 = json@;
    let mut out: Vec<u8> = Vec::new();
    out.push(123);
    out.push(34);
    out.push(105);
    out.push(100);
    out.push(34);
    out.push(58);
    out.push(34);
    proof {
        assert(out@ =~= record_head());
    }
    let mut id = id;
    out.append(&mut id);
    proof {
        assert(out@ =~= record_head() + id0);
    }
    out.push(34);
    out.push(44);
    out.push(34);
    out.push(99);
    out.push(111);
    out.push(110);
    out.push(116);
    out.push(101);
    out.push(110);
    out.push(116);
    out.push(34);
    out.push(58);
    proof {
        assert(out@ =~= record_head() + id0 + record_mid());
    }
    let mut json = json;
    out.append(&mut json);
    out.push(125);
    proof {
        assert(out@ =~= record_seq(id0, json0));
    }
    out
}

/// The byte encoding the outside JSON encoder produces for a value: a
/// function of the value alone.
pub uninterp spec fn json_of(v: serde_json::Value) -> Seq<u8>;

/// The encodings of a sequence of values, one per value, in order.
pub open spec fn jsons_of(vs: Seq<serde_json::Value>) -> Seq<Seq<u8>> {
    vs.map_values(|v: serde_json::Value| json_of(v))
}

/// Relies on `serde_json::to_vec`: encoding a `serde_json::Value` depends on
/// the value alone and cannot fail — its only error paths are writer I/O,
/// and writing into a vector is infallible — and the encoder escapes control
/// characters inside strings, so the result holds no raw newline and no NUL
/// byte.
#[verifier::external_body]
fn json_bytes(v: &serde_json::Value) -> (r: Vec<u8>)
    ensures
        r@ == json_of(*v),
        clean(r@),
{
    serde_json::to_vec(v).expect("encoding a JSON value into a vector cannot fail")
}

/// Appending one more content encoding to a batch appends one more line,
/// carrying the next index.
proof fn lemma_batch_snoc(prefix: Seq<u8>, jsons: Seq<Seq<u8>>, j: Seq<u8>, k: nat)
    ensures
        batch_seq(prefix, jsons.push(j), k) == batch_seq(prefix, jsons, k) + line_seq(
            record_seq(id_seq(prefix, (k + jsons.len()) as nat), j),
        ),
    decreases jsons.len(),
{
    if jsons.len() == 0 {
        let e: Seq<Seq<u8>> = Seq::empty();
        let lj = line_seq(record_seq(id_seq(prefix, k), j));
        assert(jsons =~= e);
        assert(jsons.push(j).drop_first() =~= e);
        assert(batch_seq(prefix, e, (k + 1) as nat) == Seq::<u8>::empty());
        assert(batch_seq(prefix, e, k) == Seq::<u8>::empty());
        assert(jsons.push(j)[0] == j);
        assert(batch_seq(prefix, jsons.push(j), k) == lj + batch_seq(
            prefix,
            jsons.push(j).drop_first(),
            (k + 1) as nat,
        ));
        assert((k + jsons.len()) as nat == k);
        assert(lj + Seq::<u8>::empty() =~= lj);
        assert(Seq::<u8>::empty() + lj =~= lj);
    } else {
        assert(jsons.push(j).drop_first() =~= jsons.drop_first().push(j));
        lemma_batch_snoc(prefix, jsons.drop_first(), j, (k + 1) as nat);
        let l0 = line_seq(record_seq(id_seq(prefix, k), jsons[0]));
        let lj = line_seq(record_seq(id_seq(prefix, (k + jsons.len()) as nat), j));
        let rest = batch_seq(prefix, jsons.drop_first(), (k + 1) as nat);
        assert(jsons.push(j)[0] == jsons[0]);
        assert((k + 1 + jsons.drop_first().len()) as nat == (k + jsons.len()) as nat);
        assert(batch_seq(prefix, jsons.push(j), k) == l0 + batch_seq(
            prefix,
            jsons.drop_first().push(j),
            (k + 1) as nat,
        ));
        assert(batch_seq(prefix, jsons.push(j), k) == l0 + (rest + lj));
        assert(batch_seq(prefix, jsons, k) == l0 + rest);
        assert(l0 + (rest + lj) =~= (l0 + rest) + lj);
    }
}

/// Builds the whole staging file for a batch of request contents: for each
/// content, in input order, one line holding a record whose id carries the
/// content's index and whose content field holds exactly that content's JSON
/// encoding. Building cannot fail: the encoder is total on JSON values.
pub fn build_batch(prefix: &[u8], contents: &Vec<serde_json::Value>) -> (out: Vec<u8>)
    ensures
        out@ == batch_seq(prefix@, jsons_of(contents@), 0),
        forall|i: int| 0 <= i < contents@.len() ==> clean(#[trigger] jsons_of(contents@)[i]),
{
    let mut out: Vec<u8> = Vec::new();
    let ghost mut jsons: Seq<Seq<u8>> = Seq::empty();
    let mut idx: usize = 0;
    while idx < contents.len()
        invariant
            idx <= contents@.len(),
            jsons.len() == idx,
            forall|i: int|
                0 <= i < jsons.len() ==> #[trigger] jsons[i] == json_of(contents@[i]) && clean(
                    jsons[i],
                ),
            out@ == batch_seq(prefix@, jsons, 0),
        decreases contents@.len() - idx,
    {
        let json = json_bytes(&contents[idx]);
        let ghost j0 = json@;
        let id = request_id(prefix, idx);
        let mut rec = build_record(id, json);
        proof {
            lemma_batch_snoc(prefix@, jsons, j0, 0);
        }
        out.append(&mut rec);
        out.push(NEWLINE);
        out.push(NUL);
        proof {
            jsons = jsons.push(j0);
            assert(out@ =~= batch_seq(prefix@, jsons, 0));
        }
        idx = idx + 1;
    }
    proof {
        assert(jsons =~= jsons_of(contents@));
    }
    out
}

/// Occurrences of a byte in a concatenation add up.
pub proof fn lemma_count_byte_add(s: Seq<u8>, t: Seq<u8>, b: u8)
    ensures
        count_byte(s + t, b) == count_byte(s, b) + count_byte(t, b),
    decreases s.len(),
{
    if s.len() == 0 {
        assert(s + t =~= t);
    } else {
        assert((s + t).drop_first() =~= s.drop_first() + t);
        assert((s + t)[0] == s[0]);
        lemma_count_byte_add(s.drop_first(), t, b);
    }
}

/// A sequence free of the terminator bytes holds no occurrence of either.
proof fn lemma_clean_count(s: Seq<u8>, b: u8)
    requires
        clean(s),
        b == NEWLINE || b == NUL,
    ensures
        count_byte(s, b) == 0,
    decreases s.len(),
{
    if s.len() > 0 {
        assert forall|i: int| 0 <= i < s.drop_first().len() implies s.drop_first()[i] != NEWLINE
            && s.drop_first()[i] != NUL by {
            assert(s.drop_first()[i] == s[i + 1]);
        }
        lemma_clean_count(s.drop_first(), b);
    }
}

/// A decimal rendering holds only digit bytes, never a terminator byte.
proof fn lemma_dec_seq_clean(n: nat)
    ensures
        clean(dec_seq(n)),
    decreases n,
{
    if n < 10 {
        assert(dec_seq(n)[0] == digit_byte(n));
        assert(48 + n < 256);
    } else {
        lemma_dec_seq_clean(n / 10);
        assert(48 + n % 10 < 256);
        assert forall|i: int| 0 <= i < dec_seq(n).len() implies dec_seq(n)[i] != NEWLINE && dec_seq(
            n,
        )[i] != NUL by {
            if i < dec_seq(n / 10).len() {
                assert(dec_seq(n)[i] == dec_seq(n / 10)[i]);
            } else {
                assert(dec_seq(n)[i] == digit_byte(n % 10));
            }
        }
    }
}

/// An id built from an application-name prefix holds no terminator byte.
pub proof fn lemma_id_clean(prefix: Seq<u8>, n: nat)
    requires
        prefix_ok(prefix),
    ensures
        clean(id_seq(prefix, n)),
{
    lemma_dec_seq_clean(n);
    let u = upper_seq(prefix);
    let d = dec_seq(n);
    assert forall|i: int| 0 <= i < id_seq(prefix, n).len() implies id_seq(prefix, n)[i] != NEWLINE
        && id_seq(prefix, n)[i] != NUL by {
        if i < u.len() {
            assert(id_seq(prefix, n)[i] == upper_byte(prefix[i]));
            assert(id_byte_ok(prefix[i]));
        } else if i == u.len() {
            assert(id_seq(prefix, n)[i] == DASH);
        } else {
            assert(id_seq(prefix, n)[i] == d[i - u.len() - 1]);
        }
    }
}

/// A record whose id and content are free of terminator bytes is itself free
/// of them: the fixed framing bytes are printable ASCII.
proof fn lemma_record_clean(id: Seq<u8>, json: Seq<u8>)
    requires
        clean(id),
        clean(json),
    ensures
        clean(record_seq(id, json)),
{
    let r = record_seq(id, json);
    assert forall|i: int| 0 <= i < r.len() implies r[i] != NEWLINE && r[i] != NUL by {
        let a = record_head().len() as int;
        let b = a + id.len() as int;
        let c = b + record_mid().len() as int;
        let d = c + json.len() as int;
        if i < a {
            assert(r[i] == record_head()[i]);
        } else if i < b {
            assert(r[i] == id[i - a]);
        } else if i < c {
            assert(r[i] == record_mid()[i - b]);
        } else if i < d {
            assert(r[i] == json[i - c]);
        } else {
            assert(r[i] == record_tail()[0]);
        }
    }
}

/// One line holds exactly one newline and exactly one NUL byte when its
/// record is free of both.
proof fn lemma_line_counts(rec: Seq<u8>)
    requires
        clean(rec),
    ensures
        count_byte(line_seq(rec), NEWLINE) == 1,
        count_byte(line_seq(rec), NUL) == 1,
{
    let t = seq![NEWLINE, NUL];
    lemma_clean_count(rec, NEWLINE);
    lemma_clean_count(rec, NUL);
    lemma_count_byte_add(rec, t, NEWLINE);
    lemma_count_byte_add(rec, t, NUL);
    assert(t.drop_first() =~= seq![NUL]);
    assert(seq![NUL].drop_first() =~= Seq::<u8>::empty());
    assert(count_byte(Seq::<u8>::empty(), NEWLINE) == 0);
    assert(count_byte(Seq::<u8>::empty(), NUL) == 0);
    assert(count_byte(seq![NUL], NEWLINE) == 0);
    assert(count_byte(seq![NUL], NUL) == 1);
    assert(count_byte(t, NEWLINE) == 1);
    assert(count_byte(t, NUL) == 1);
}

/// A staging file built from an application-name prefix and clean content
/// encodings holds exactly one newline and one NUL byte per request: one
/// line per request.
pub proof fn lemma_batch_line_count(prefix: Seq<u8>, jsons: Seq<Seq<u8>>, k: nat)
    requires
        prefix_ok(prefix),
        forall|i: int| 0 <= i < jsons.len() ==> clean(#[trigger] jsons[i]),
    ensures
        count_byte(batch_seq(prefix, jsons, k), NEWLINE) == jsons.len(),
        count_byte(batch_seq(prefix, jsons, k), NUL) == jsons.len(),
    decreases jsons.len(),
{
    if jsons.len() > 0 {
        let rec = record_seq(id_seq(prefix, k), jsons[0]);
        lemma_id_clean(prefix, k);
        lemma_record_clean(id_seq(prefix, k), jsons[0]);
        lemma_line_counts(rec);
        let rest = batch_seq(prefix, jsons.drop_first(), (k + 1) as nat);
        lemma_count_byte_add(line_seq(rec), rest, NEWLINE);
        lemma_count_byte_add(line_seq(rec), rest, NUL);
        assert forall|i: int| 0 <= i < jsons.drop_first().len() implies clean(
            #[trigger] jsons.drop_first()[i],
        ) by {
            assert(jsons.drop_first()[i] == jsons[i + 1]);
        }
        lemma_batch_line_count(prefix, jsons.drop_first(), (k + 1) as nat);
    }
}

/// Helper facts about decimal renderings: never empty, and at least two
/// digits from ten upward.
proof fn lemma_dec_seq_len(n: nat)
    ensures
        dec_seq(n).len() >= 1,
        n >= 10 ==> dec_seq(n).len() >= 2,
    decreases n,
{
    if n >= 10 {
        lemma_dec_seq_len(n / 10);
    }
}

/// Decimal rendering is injective: two numbers with the same rendering are
/// the same number.
pub proof fn lemma_dec_seq_injective(m: nat, n: nat)
    requires
        dec_seq(m) == dec_seq(n),
    ensures
        m == n,
    decreases m,
{
    lemma_dec_seq_len(m);
    lemma_dec_seq_len(n);
    if m < 10 && n < 10 {
        assert(dec_seq(m)[0] == digit_byte(m));
        assert(dec_seq(n)[0] == digit_byte(n));
        assert(48 + m < 256 && 48 + n < 256);
    } else if m < 10 {
        assert(dec_seq(m).len() == 1);
        assert(false);
    } else if n < 10 {
        assert(dec_seq(n).len() == 1);
        assert(false);
    } else {
        let dm = dec_seq(m);
        let dn = dec_seq(n);
        assert(dm.last() == digit_byte(m % 10));
        assert(dn.last() == digit_byte(n % 10));
        assert(48 + m % 10 < 256 && 48 + n % 10 < 256);
        assert(m % 10 == n % 10);
        assert(dm.drop_last() =~= dec_seq(m / 10));
        assert(dn.drop_last() =~= dec_seq(n / 10));
        lemma_dec_seq_injective(m / 10, n / 10);
    }
}

/// Within one batch, ids are unique: two positions with the same id are the
/// same position.
pub proof fn lemma_ids_unique(prefix: Seq<u8>, m: nat, n: nat)
    requires
        id_seq(prefix, m) == id_seq(prefix, n),
    ensures
        m == n,
{
    let h = upper_seq(prefix) + seq![DASH];
    let dm = dec_seq(m);
    let dn = dec_seq(n);
    assert(id_seq(prefix, m) =~= h + dm);
    assert(id_seq(prefix, n) =~= h + dn);
    assert(dm.len() == dn.len());
    assert forall|i: int| 0 <= i < dm.len() implies dm[i] == dn[i] by {
        assert((h + dm)[h.len() + i] == dm[i]);
        assert((h + dn)[h.len() + i] == dn[i]);
    }
    assert(dm =~= dn);
    lemma_dec_seq_injective(m, n);
}

} // verus!
