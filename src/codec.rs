//! The credential record and its fixed binary layout.
use vstd::prelude::*;
use vstd::utf8::*;

verus! {

pub open spec fn pow256(n: nat) -> nat
    decreases n,
{
    if n == 0 {
        1
    } else {
        256 * pow256((n - 1) as nat)
    }
}

/// The `n` low bytes of `v`, most significant first.
pub open spec fn be_bytes(v: nat, n: nat) -> Seq<u8>
    decreases n,
{
    if n == 0 {
        seq![]
    } else {
        be_bytes(v / 256, (n - 1) as nat).push((v % 256) as u8)
    }
}

/// The number that `b` spells, most significant byte first.
pub open spec fn be_value(b: Seq<u8>) -> nat
    decreases b.len(),
{
    if b.len() == 0 {
        0
    } else {
        (be_value(b.drop_last()) * 256 + b.last()) as nat
    }
}

/// The 64-bit two's complement word of `t`, as a number.
pub open spec fn word_of_i64(t: i64) -> nat {
    if t >= 0 {
        t as nat
    } else {
        (t + 0x1_0000_0000_0000_0000) as nat
    }
}

/// The signed value of a 64-bit two's complement word.
pub open spec fn i64_of_word(w: nat) -> int {
    if w < 0x8000_0000_0000_0000 {
        w as int
    } else {
        w - 0x1_0000_0000_0000_0000
    }
}

/// The number of bytes ahead of the token: magic, version, timestamp, length.
pub const HEADER_LEN: usize = 17;

/// The fixed amount by which each token byte is shifted on disk.
pub const SHIFT: u8 = 5;

/// The format tag that opens every credential file: the letters `AUTH`.
pub open spec fn magic() -> Seq<u8> {
    seq![0x41u8, 0x55u8, 0x54u8, 0x48u8]
}

/// A token byte as it is written to disk: moved down by the shift, modulo 256.
pub open spec fn hide_byte(b: u8) -> u8 {
    ((b as int + 256 - SHIFT as int) % 256) as u8
}

/// A byte as it is read from disk: moved up by the shift, modulo 256.
pub open spec fn show_byte(b: u8) -> u8 {
    ((b as int + SHIFT as int) % 256) as u8
}

pub open spec fn hide_bytes(b: Seq<u8>) -> Seq<u8> {
    b.map_values(|x: u8| hide_byte(x))
}

pub open spec fn show_bytes(b: Seq<u8>) -> Seq<u8> {
    b.map_values(|x: u8| show_byte(x))
}

/// What a credential record holds, as plain values.
pub struct RecordView {
    pub version: u8,
    pub timestamp: i64,
    pub token: Seq<char>,
}

/// Why a byte stream is not a credential record.
#[derive(Debug, Clone, Copy, PartialEq, Eq, Structural)]
pub enum DecodeError {
    /// The stream ends before the header or before the declared token.
    Truncated,
    /// The stream does not open with the format tag.
    BadMagic,
    /// The record was written in another major version of the format.
    UnsupportedVersion,
    /// The de-obfuscated token is not UTF-8 text.
    InvalidText,
}

/// The bytes that store a record.
pub open spec fn layout(r: RecordView) -> Seq<u8> {
    magic() + seq![r.version] + be_bytes(word_of_i64(r.timestamp), 8) + be_bytes(
        encode_utf8(r.token).len(),
        4,
    ) + hide_bytes(encode_utf8(r.token))
}

/// The token length that the header of `b` declares.
pub open spec fn declared_len(b: Seq<u8>) -> nat {
    be_value(b.subrange(13, 17))
}

/// The record that a byte stream holds, or why it holds none. Only records
/// of the current format version are accepted; bytes after the token are
/// not read.
pub open spec fn parse(b: Seq<u8>) -> Result<RecordView, DecodeError> {
    if b.len() < HEADER_LEN {
        Err(DecodeError::Truncated)
    } else if b.subrange(0, 4) != magic() {
        Err(DecodeError::BadMagic)
    } else if b[4] != FORMAT_VERSION {
        Err(DecodeError::UnsupportedVersion)
    } else if b.len() < HEADER_LEN + declared_len(b) {
        Err(DecodeError::Truncated)
    } else {
        let t = show_bytes(b.subrange(HEADER_LEN as int, HEADER_LEN + declared_len(b)));
        if !valid_utf8(t) {
            Err(DecodeError::InvalidText)
        } else {
            Ok(
                RecordView {
                    version: b[4],
                    timestamp: i64_of_word(be_value(b.subrange(5, 13))) as i64,
                    token: decode_utf8(t),
                },
            )
        }
    }
}

/// Appends the `n` low bytes of `v`, most significant first.
fn push_be(out: &mut Vec<u8>, v: u64, n: usize)
    requires
        n <= 8,
    ensures
        final(out)@ == old(out)@ + be_bytes(v as nat, n as nat),
    decreases n,
{
    if n > 0 {
        push_be(out, v / 256, n - 1);
        out.push((v % 256) as u8);
        proof {
            assert((v / 256) as nat == (v as nat) / 256);
        }
    }
}

proof fn lemma_pow256_bounds(n: nat)
    ensures
        pow256(n) >= 1,
        n <= 8 ==> pow256(n) <= 0x1_0000_0000_0000_0000,
    decreases 9 - n,
{
    if n > 0 {
        lemma_pow256_low((n - 1) as nat);
    }
    if n < 8 {
        lemma_pow256_bounds(n + 1);
    } else if n == 8 {
        reveal_with_fuel(pow256, 9);
    }
}

proof fn lemma_pow256_low(n: nat)
    ensures
        pow256(n) >= 1,
    decreases n,
{
    if n > 0 {
        lemma_pow256_low((n - 1) as nat);
    }
}

/// Reads `n` bytes of `b` from `start` as a big-endian number.
fn read_be(b: &[u8], start: usize, n: usize) -> (r: u64)
    requires
        n <= 8,
        start + n <= b@.len(),
    ensures
        r as nat == be_value(b@.subrange(start as int, start + n)),
        (r as nat) < pow256(n as nat),
{
    let len = b.len();
    let mut acc: u64 = 0;
    let mut i: usize = 0;
    proof {
        assert(b@.subrange(start as int, start as int) =~= Seq::<u8>::empty());
    }
    while i < n
        invariant
            i <= n,
            n <= 8,
            start + n <= b@.len(),
            len == b@.len(),
            acc as nat == be_value(b@.subrange(start as int, start + i)),
            acc < pow256(i as nat),
        decreases n - i,
    {
        proof {
            lemma_pow256_bounds((i + 1) as nat);
            assert(acc * 256 + 255 < pow256((i + 1) as nat)) by (nonlinear_arith)
                requires
                    acc < pow256(i as nat),
                    pow256((i + 1) as nat) == 256 * pow256(i as nat),
            ;
            assert(b@.subrange(start as int, start + i + 1).drop_last() =~= b@.subrange(
                start as int,
                start + i,
            ));
        }
        acc = acc * 256 + b[start + i] as u64;
        i = i + 1;
    }
    acc
}

proof fn lemma_be_len(v: nat, n: nat)
    ensures
        be_bytes(v, n).len() == n,
    decreases n,
{
    if n > 0 {
        lemma_be_len(v / 256, (n - 1) as nat);
    }
}

proof fn lemma_be_round_trip(v: nat, n: nat)
    requires
        v < pow256(n),
    ensures
        be_value(be_bytes(v, n)) == v,
    decreases n,
{
    if n > 0 {
        let m = (n - 1) as nat;
        assert(v / 256 < pow256(m)) by (nonlinear_arith)
            requires
                v < pow256(n),
                pow256(n) == 256 * pow256(m),
        ;
        lemma_be_round_trip(v / 256, m);
        assert(be_bytes(v, n).drop_last() =~= be_bytes(v / 256, m));
    }
}

/// Shifting a byte down and up again, or up and down again, gives it back.
pub proof fn lemma_shift_involution(b: Seq<u8>)
    ensures
        show_bytes(hide_bytes(b)) == b,
        hide_bytes(show_bytes(b)) == b,
{
    assert(show_bytes(hide_bytes(b)) =~= b);
    assert(hide_bytes(show_bytes(b)) =~= b);
}

/// A token whose UTF-8 bytes can be counted in the 32-bit length field.
pub open spec fn token_fits(r: RecordView) -> bool {
    encode_utf8(r.token).len() <= u32::MAX
}

/// The major version of the file format that this library writes.
pub const FORMAT_VERSION: u8 = 0;

/// The local credential record: the bearer token and when it was issued.
/// The token is obfuscated on disk by a fixed byte shift, which keeps it from
/// casual reading and from nothing more; it is not encryption.
pub struct Config {
    version: u8,
    timestamp: i64,
    token: String,
}

impl View for Config {
    type V = RecordView;

    closed spec fn view(&self) -> RecordView {
        RecordView { version: self.version, timestamp: self.timestamp, token: self.token@ }
    }
}

/// Relies on `String::from_utf8`: it accepts exactly the valid UTF-8
/// sequences, and the text it returns has those bytes.
#[verifier::external_body]
fn text_from_utf8(bytes: Vec<u8>) -> (r: Option<String>)
    ensures
        r is Some <==> valid_utf8(bytes@),
        r matches Some(s) ==> s@ == decode_utf8(bytes@),
{
    String::from_utf8(bytes).ok()
}

fn word_from_i64(t: i64) -> (r: u64)
    ensures
        r as nat == word_of_i64(t),
{
    if t >= 0 {
        t as u64
    } else {
        ((t + 0x7fff_ffff_ffff_ffff + 1) as u64) + 0x8000_0000_0000_0000
    }
}

fn i64_from_word(w: u64) -> (r: i64)
    ensures
        r as int == i64_of_word(w as nat),
{
    if w < 0x8000_0000_0000_0000 {
        w as i64
    } else {
        ((w - 0x8000_0000_0000_0000) as i64) - 0x7fff_ffff_ffff_ffff - 1
    }
}

impl Config {
    /// A record of `token`, issued at `timestamp`, in the current format version.
    pub fn new(token: &str, timestamp: i64) -> (r: Config)
        requires
            token.len() <= u32::MAX,
        ensures
            r@ == (RecordView { version: FORMAT_VERSION, timestamp, token: token@ }),
            token_fits(r@),
    {
        let n = token.as_bytes().len();
        assert(n == encode_utf8(token@).len());
        Config { version: FORMAT_VERSION, timestamp, token: token.to_owned() }
    }

    pub fn token(&self) -> (r: &String)
        ensures
            r@ == self@.token,
    {
        &self.token
    }

    pub fn timestamp(&self) -> (r: i64)
        ensures
            r == self@.timestamp,
    {
        self.timestamp
    }

    pub fn version(&self) -> (r: u8)
        ensures
            r == self@.version,
    {
        self.version
    }

    /// The number of bytes that the token takes on disk.
    pub fn token_len(&self) -> (r: u32)
        requires
            token_fits(self@),
        ensures
            r as nat == encode_utf8(self@.token).len(),
    {
        self.token.as_str().as_bytes().len() as u32
    }

    /// The bytes that store this record.
    pub fn encode(&self) -> (r: Vec<u8>)
        requires
            token_fits(self@),
        ensures
            r@ == layout(self@),
    {
        let mut out: Vec<u8> = Vec::new();
        out.push(0x41u8);
        out.push(0x55u8);
        out.push(0x54u8);
        out.push(0x48u8);
        out.push(self.version);
        push_be(&mut out, word_from_i64(self.timestamp), 8);
        let tb = self.token.as_str().as_bytes();
        push_be(&mut out, tb.len() as u64, 4);
        let ghost head = out@;
        proof {
            assert(head =~= magic() + seq![self.version] + be_bytes(word_of_i64(self.timestamp), 8)
                + be_bytes(encode_utf8(self.token@).len(), 4));
        }
        let mut i: usize = 0;
        while i < tb.len()
            invariant
                i <= tb@.len(),
                out@ == head + hide_bytes(tb@.subrange(0, i as int)),
            decreases tb@.len() - i,
        {
            out.push(tb[i].wrapping_sub(SHIFT));
            i = i + 1;
            proof {
                assert(hide_bytes(tb@.subrange(0, i as int)) =~= hide_bytes(
                    tb@.subrange(0, i - 1),
                ).push(hide_byte(tb@[i - 1])));
            }
        }
        proof {
            assert(tb@.subrange(0, i as int) =~= tb@);
        }
        out
    }

    /// The record that `bytes` stores, or why they store none.
    pub fn decode(bytes: &[u8]) -> (r: Result<Config, DecodeError>)
        ensures
            match r {
                Ok(c) => parse(bytes@) == Ok::<RecordView, DecodeError>(c@) && token_fits(c@),
                Err(e) => parse(bytes@) == Err::<RecordView, DecodeError>(e),
            },
    {
        let len = bytes.len();
        if len < HEADER_LEN {
            return Err(DecodeError::Truncated);
        }
        if bytes[0] != 0x41u8 || bytes[1] != 0x55u8 || bytes[2] != 0x54u8 || bytes[3] != 0x48u8 {
            proof {
                if bytes@.subrange(0, 4) == magic() {
                    assert(bytes@.subrange(0, 4)[0] == bytes@[0]);
                    assert(bytes@.subrange(0, 4)[1] == bytes@[1]);
                    assert(bytes@.subrange(0, 4)[2] == bytes@[2]);
                    assert(bytes@.subrange(0, 4)[3] == bytes@[3]);
                }
            }
            return Err(DecodeError::BadMagic);
        }
        proof {
            assert(bytes@.subrange(0, 4) =~= magic());
        }
        let version = bytes[4];
        if version != FORMAT_VERSION {
            return Err(DecodeError::UnsupportedVersion);
        }
        let word = read_be(bytes, 5, 8);
        let n = read_be(bytes, 13, 4);
        if ((len - HEADER_LEN) as u64) < n {
            return Err(DecodeError::Truncated);
        }
        let n = n as usize;
        let mut t: Vec<u8> = Vec::new();
        let mut i: usize = 0;
        while i < n
            invariant
                i <= n,
                HEADER_LEN + n <= bytes@.len(),
                len == bytes@.len(),
                t@ == show_bytes(bytes@.subrange(HEADER_LEN as int, HEADER_LEN + i)),
            decreases n - i,
        {
            t.push(bytes[HEADER_LEN + i].wrapping_add(SHIFT));
            i = i + 1;
            proof {
                assert(show_bytes(bytes@.subrange(HEADER_LEN as int, HEADER_LEN + i)) =~= show_bytes(
                    bytes@.subrange(HEADER_LEN as int, HEADER_LEN + i - 1),
                ).push(show_byte(bytes@[HEADER_LEN + i - 1])));
            }
        }
        let ghost shown = t@;
        match text_from_utf8(t) {
            None => Err(DecodeError::InvalidText),
            Some(token) => {
                proof {
                    decode_utf8_encode_utf8(shown);
                    reveal_with_fuel(pow256, 5);
                    assert(shown.len() == n);
                }
                Ok(Config { version, timestamp: i64_from_word(word), token })
            },
        }
    }
}

/// Decoding the bytes that store a record of the current format version
/// gives the record back: version, timestamp, token length and token are
/// all kept.
pub proof fn lemma_round_trip(r: RecordView)
    requires
        token_fits(r),
        r.version == FORMAT_VERSION,
    ensures
        parse(layout(r)) == Ok::<RecordView, DecodeError>(r),
{
    let tb = encode_utf8(r.token);
    let w = word_of_i64(r.timestamp);
    let b = layout(r);
    lemma_be_len(w, 8);
    lemma_be_len(tb.len(), 4);
    reveal_with_fuel(pow256, 9);
    lemma_be_round_trip(w, 8);
    lemma_be_round_trip(tb.len(), 4);
    assert(b.subrange(0, 4) =~= magic());
    assert(b.subrange(5, 13) =~= be_bytes(w, 8));
    assert(b.subrange(13, 17) =~= be_bytes(tb.len(), 4));
    assert(b.subrange(HEADER_LEN as int, HEADER_LEN + tb.len()) =~= hide_bytes(tb));
    lemma_shift_involution(tb);
    encode_utf8_valid_utf8(r.token);
    encode_utf8_decode_utf8(r.token);
}

/// A stream that ends before its header, or before the token that its
/// header declares, is refused rather than read past its end.
pub proof fn lemma_truncated_refused(b: Seq<u8>)
    requires
        b.len() < HEADER_LEN || b.len() < HEADER_LEN + declared_len(b),
    ensures
        parse(b) is Err,
{
}

} // verus!
