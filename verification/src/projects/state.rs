//! The project (campaign) record: its fields, its fixed-layout wire image,
//! and proofs that the layout round-trips and that a zero-filled slot decodes
//! as an uninitialized record.

use vstd::prelude::*;
use crate::keys::{Key, key_at, push_key, key_to_vec, lemma_key_concat};
use crate::wire::{
    u32_le_bytes, u64_le_bytes, i64_le_bytes, le4_at, le8_at, bool_byte, push_u32_le, push_u64_le,
    push_i64_le, push_bytes, read_u32_le, read_u64_le, read_bytes, overwrite_prefix,
    lemma_le4_concat, lemma_le8_concat, lemma_byte_concat, lemma_slice_concat,
};

verus! {

pub const PROJECT_ACCOUNT_DATA_VERSION: u8 = 0;

/// Longest admitted title, in characters.
pub const MAX_PROJECT_TITLE_LENGTH: usize = 50;

/// Longest stored title, in bytes: the slot reserves four bytes per
/// character, the widest a character's encoding can be.
pub const MAX_PROJECT_TITLE_BYTES: usize = 200;

/// Size of a project record's storage slot: framing (length-prefixed type
/// tag, one flag byte, one version byte), two identities, the fee image, the
/// three one-byte counts, the worst-case title, and two timestamps.
pub const PROJECT_ACCOUNT_LENGTH: usize = (4 + 15) + 1 + 1 + 32 + 32 + 8 + 1 + 1 + 1 + (4 + 200) + 8
    + 8;

/// The type tag stored at the front of every project record: the bytes of
/// the text `project_account`.
pub open spec fn project_discriminator_bytes() -> Seq<u8> {
    seq![112u8, 114u8, 111u8, 106u8, 101u8, 99u8, 116u8, 95u8, 97u8, 99u8, 99u8, 111u8, 117u8, 110u8, 116u8]
}

/// The type tag as a byte vector.
pub fn project_discriminator() -> (r: Vec<u8>)
    ensures
        r@ == project_discriminator_bytes(),
{
    let r: Vec<u8> = vec![112u8, 114u8, 111u8, 106u8, 101u8, 99u8, 116u8, 95u8, 97u8, 99u8, 99u8, 111u8, 117u8, 110u8, 116u8];
    assert(r@ =~= project_discriminator_bytes());
    r
}

/// Whether `b` is a continuation byte of a multi-byte character encoding.
pub open spec fn is_utf8_continuation(b: u8) -> bool {
    b & 0xC0 == 0x80
}

/// The number of characters a byte string encodes: one per byte that starts
/// a character encoding.
pub open spec fn utf8_char_count(s: Seq<u8>) -> nat
    decreases s.len(),
{
    if s.len() == 0 {
        0
    } else {
        utf8_char_count(s.drop_last()) + (if is_utf8_continuation(s.last()) {
            0nat
        } else {
            1nat
        })
    }
}

/// Counts the characters a title encodes.
pub fn title_char_count(v: &Vec<u8>) -> (r: usize)
    ensures
        r == utf8_char_count(v@),
{
    let mut count: usize = 0;
    let mut i: usize = 0;
    while i < v.len()
        invariant
            0 <= i <= v@.len(),
            count <= i,
            count == utf8_char_count(v@.subrange(0, i as int)),
        decreases v@.len() - i,
    {
        let b = v[i];
        proof {
            assert(v@.subrange(0, i + 1).drop_last() =~= v@.subrange(0, i as int));
            assert(v@.subrange(0, i + 1).last() == v@[i as int]);
        }
        if (b & 0xC0) != 0x80 {
            count = count + 1;
        }
        i = i + 1;
    }
    proof {
        assert(v@.subrange(0, v@.len() as int) =~= v@);
    }
    count
}

/// The fields of a project record.
pub struct ProjectAccountStateData {
    pub project_owner_pubkey: Key,
    pub candy_machine_id: Key,
    /// The eight-byte wire image of the fee fraction, kept opaque: the core
    /// never computes with it.
    pub affiliate_fee_percentage: u64,
    pub affiliate_target_in_sol: u8,
    pub max_affiliate_count: u8,
    pub affiliate_count: u8,
    pub title: Vec<u8>,
    pub created_at: i64,
    pub updated_at: i64,
}

/// A project record with its framing.
pub struct ProjectAccountState {
    pub discriminator: Vec<u8>,
    pub is_initialized: bool,
    pub data_version: u8,
    pub data: ProjectAccountStateData,
}

/// The mathematical value of [`ProjectAccountStateData`].
#[verifier::ext_equal]
pub struct ProjectAccountStateDataV {
    pub project_owner_pubkey: Key,
    pub candy_machine_id: Key,
    pub affiliate_fee_percentage: u64,
    pub affiliate_target_in_sol: u8,
    pub max_affiliate_count: u8,
    pub affiliate_count: u8,
    pub title: Seq<u8>,
    pub created_at: i64,
    pub updated_at: i64,
}

/// The mathematical value of [`ProjectAccountState`].
#[verifier::ext_equal]
pub struct ProjectAccountStateV {
    pub discriminator: Seq<u8>,
    pub is_initialized: bool,
    pub data_version: u8,
    pub data: ProjectAccountStateDataV,
}

impl View for ProjectAccountStateData {
    type V = ProjectAccountStateDataV;

    open spec fn view(&self) -> ProjectAccountStateDataV {
        ProjectAccountStateDataV {
            project_owner_pubkey: self.project_owner_pubkey,
            candy_machine_id: self.candy_machine_id,
            affiliate_fee_percentage: self.affiliate_fee_percentage,
            affiliate_target_in_sol: self.affiliate_target_in_sol,
            max_affiliate_count: self.max_affiliate_count,
            affiliate_count: self.affiliate_count,
            title: self.title@,
            created_at: self.created_at,
            updated_at: self.updated_at,
        }
    }
}

impl View for ProjectAccountState {
    type V = ProjectAccountStateV;

    open spec fn view(&self) -> ProjectAccountStateV {
        ProjectAccountStateV {
            discriminator: self.discriminator@,
            is_initialized: self.is_initialized,
            data_version: self.data_version,
            data: self.data@,
        }
    }
}

impl ProjectAccountState {
    /// Whether this record has been initialized.
    pub fn is_initialized(&self) -> (r: bool)
        ensures
            r == self@.is_initialized,
    {
        self.is_initialized
    }
}

impl ProjectAccountStateV {
    /// The enrollment bound every operation preserves: the current count
    /// never exceeds the configured maximum.
    pub open spec fn cap_invariant(self) -> bool {
        self.data.affiliate_count <= self.data.max_affiliate_count
    }

    /// The wire image: every field in declaration order, byte strings
    /// length-prefixed, integers little-endian.
    pub open spec fn encoding(self) -> Seq<u8> {
        u32_le_bytes(self.discriminator.len() as u32) + self.discriminator + seq![
            bool_byte(self.is_initialized),
        ] + seq![self.data_version] + self.data.project_owner_pubkey.bytes()
            + self.data.candy_machine_id.bytes() + u64_le_bytes(self.data.affiliate_fee_percentage)
            + seq![self.data.affiliate_target_in_sol] + seq![self.data.max_affiliate_count] + seq![
            self.data.affiliate_count,
        ] + u32_le_bytes(self.data.title.len() as u32) + self.data.title + i64_le_bytes(
            self.data.created_at,
        ) + i64_le_bytes(self.data.updated_at)
    }

    /// How many bytes the wire image takes.
    pub open spec fn encoded_len(self) -> int {
        101 + self.discriminator.len() + self.data.title.len() as int
    }

    pub proof fn lemma_encoding_len(self)
        ensures
            self.encoding().len() == self.encoded_len(),
    {
    }
}

/// Reads a project record out of the front of a slot's bytes; the tail past
/// the image is ignored. `None` when the bytes do not hold a record.
pub open spec fn parse_project(s: Seq<u8>) -> Option<ProjectAccountStateV> {
    if s.len() < 4 {
        None
    } else {
        let dl = le4_at(s, 0) as int;
        if s.len() < 4 + dl + 2 {
            None
        } else {
            let ib = s[4 + dl];
            if ib != 0 && ib != 1 {
                None
            } else {
                let o = 6 + dl;
                if s.len() < o + 79 {
                    None
                } else {
                    let tl = le4_at(s, o + 75) as int;
                    if s.len() < o + 79 + tl + 16 {
                        None
                    } else {
                        Some(
                            ProjectAccountStateV {
                                discriminator: s.subrange(4, 4 + dl),
                                is_initialized: ib == 1,
                                data_version: s[5 + dl],
                                data: ProjectAccountStateDataV {
                                    project_owner_pubkey: key_at(s, o),
                                    candy_machine_id: key_at(s, o + 32),
                                    affiliate_fee_percentage: le8_at(s, o + 64),
                                    affiliate_target_in_sol: s[o + 72],
                                    max_affiliate_count: s[o + 73],
                                    affiliate_count: s[o + 74],
                                    title: s.subrange(o + 79, o + 79 + tl),
                                    created_at: le8_at(s, o + 79 + tl) as i64,
                                    updated_at: le8_at(s, o + 79 + tl + 8) as i64,
                                },
                            },
                        )
                    }
                }
            }
        }
    }
}

/// Decodes a project record from a slot's bytes.
pub fn decode_project(data: &Vec<u8>) -> (r: Option<ProjectAccountState>)
    ensures
        r matches Some(rec) ==> parse_project(data@) == Some(rec@),
        r is None ==> parse_project(data@) is None,
{
    let n = data.len();
    if n < 4 {
        return None;
    }
    let dl = read_u32_le(data, 0) as usize;
    if n - 4 < dl {
        return None;
    }
    if n - 4 - dl < 2 {
        return None;
    }
    let disc = read_bytes(data, 4, dl);
    let ib = data[4 + dl];
    if ib != 0 && ib != 1 {
        return None;
    }
    let ver = data[5 + dl];
    let o = 6 + dl;
    if n - o < 79 {
        return None;
    }
    let tl = read_u32_le(data, o + 75) as usize;
    if n - o - 79 < tl {
        return None;
    }
    if n - o - 79 - tl < 16 {
        return None;
    }
    let rec = ProjectAccountState {
        discriminator: disc,
        is_initialized: ib == 1,
        data_version: ver,
        data: ProjectAccountStateData {
            project_owner_pubkey: crate::keys::read_key(data, o),
            candy_machine_id: crate::keys::read_key(data, o + 32),
            affiliate_fee_percentage: read_u64_le(data, o + 64),
            affiliate_target_in_sol: data[o + 72],
            max_affiliate_count: data[o + 73],
            affiliate_count: data[o + 74],
            title: read_bytes(data, o + 79, tl),
            created_at: #[verifier::truncate] (read_u64_le(data, o + 79 + tl) as i64),
            updated_at: #[verifier::truncate] (read_u64_le(data, o + 79 + tl + 8) as i64),
        },
    };
    proof {
        let w = parse_project(data@).unwrap();
        assert(rec@ =~= w);
    }
    Some(rec)
}

/// Writes this record's wire image over the front of `slot`, leaving the
/// tail as it was.
pub fn serialize_project_into(rec: &ProjectAccountState, slot: &mut Vec<u8>)
    requires
        rec@.encoded_len() <= old(slot)@.len(),
    ensures
        final(slot)@ == rec@.encoding() + old(slot)@.skip(rec@.encoded_len()),
{
    let mut out: Vec<u8> = Vec::new();
    push_u32_le(&mut out, #[verifier::truncate] (rec.discriminator.len() as u32));
    push_bytes(&mut out, &rec.discriminator);
    out.push(if rec.is_initialized {
        1
    } else {
        0
    });
    out.push(rec.data_version);
    push_key(&mut out, &rec.data.project_owner_pubkey);
    push_key(&mut out, &rec.data.candy_machine_id);
    push_u64_le(&mut out, rec.data.affiliate_fee_percentage);
    out.push(rec.data.affiliate_target_in_sol);
    out.push(rec.data.max_affiliate_count);
    out.push(rec.data.affiliate_count);
    push_u32_le(&mut out, #[verifier::truncate] (rec.data.title.len() as u32));
    push_bytes(&mut out, &rec.data.title);
    push_i64_le(&mut out, rec.data.created_at);
    push_i64_le(&mut out, rec.data.updated_at);
    proof {
        assert(out@ =~= rec@.encoding());
        rec@.lemma_encoding_len();
    }
    overwrite_prefix(slot, &out);
}

/// The wire image read back gives back the record, whatever follows it in
/// the slot.
#[verifier::rlimit(100)]
#[verifier::spinoff_prover]
pub proof fn lemma_parse_project_encoding(v: ProjectAccountStateV, rest: Seq<u8>)
    requires
        v.discriminator.len() <= 0xffffffff,
        v.data.title.len() <= 0xffffffff,
    ensures
        parse_project(v.encoding() + rest) == Some(v),
{
    let d = v.discriminator.len() as int;
    let t = v.data.title.len() as int;
    let c0 = u32_le_bytes(v.discriminator.len() as u32);
    let c1 = v.discriminator;
    let c2 = seq![bool_byte(v.is_initialized)];
    let c3 = seq![v.data_version];
    let c4 = v.data.project_owner_pubkey.bytes();
    let c5 = v.data.candy_machine_id.bytes();
    let c6 = u64_le_bytes(v.data.affiliate_fee_percentage);
    let c7 = seq![v.data.affiliate_target_in_sol];
    let c8 = seq![v.data.max_affiliate_count];
    let c9 = seq![v.data.affiliate_count];
    let c10 = u32_le_bytes(v.data.title.len() as u32);
    let c11 = v.data.title;
    let c12 = i64_le_bytes(v.data.created_at);
    let c13 = i64_le_bytes(v.data.updated_at);
    let s = v.encoding() + rest;
    v.lemma_encoding_len();
    assert(s.len() == 101 + d + t + rest.len());
    let o = 6 + d;
    let p1 = c0;
    let p2 = p1 + c1;
    let p3 = p2 + c2;
    let p4 = p3 + c3;
    let p5 = p4 + c4;
    let p6 = p5 + c5;
    let p7 = p6 + c6;
    let p8 = p7 + c7;
    let p9 = p8 + c8;
    let p10 = p9 + c9;
    let p11 = p10 + c10;
    let p12 = p11 + c11;
    let p13 = p12 + c12;

    assert(le4_at(s, 0) == d) by {
        let r0 = c1 + c2 + c3 + c4 + c5 + c6 + c7 + c8 + c9 + c10 + c11 + c12 + c13 + rest;
        assert(s =~= Seq::<u8>::empty() + c0 + r0);
        lemma_le4_concat(Seq::<u8>::empty(), v.discriminator.len() as u32, r0);
    }
    assert(s.subrange(4, 4 + d) == c1) by {
        let r1 = c2 + c3 + c4 + c5 + c6 + c7 + c8 + c9 + c10 + c11 + c12 + c13 + rest;
        assert(s =~= p1 + c1 + r1);
        lemma_slice_concat(p1, c1, r1);
    }
    assert(s[4 + d] == bool_byte(v.is_initialized)) by {
        let r2 = c3 + c4 + c5 + c6 + c7 + c8 + c9 + c10 + c11 + c12 + c13 + rest;
        assert(s =~= p2 + c2 + r2);
        lemma_byte_concat(p2, bool_byte(v.is_initialized), r2);
    }
    assert(s[5 + d] == v.data_version) by {
        let r3 = c4 + c5 + c6 + c7 + c8 + c9 + c10 + c11 + c12 + c13 + rest;
        assert(s =~= p3 + c3 + r3);
        lemma_byte_concat(p3, v.data_version, r3);
    }
    assert(key_at(s, o) == v.data.project_owner_pubkey) by {
        let r4 = c5 + c6 + c7 + c8 + c9 + c10 + c11 + c12 + c13 + rest;
        assert(s =~= p4 + c4 + r4);
        lemma_key_concat(p4, v.data.project_owner_pubkey, r4);
    }
    assert(key_at(s, o + 32) == v.data.candy_machine_id) by {
        let r5 = c6 + c7 + c8 + c9 + c10 + c11 + c12 + c13 + rest;
        assert(s =~= p5 + c5 + r5);
        lemma_key_concat(p5, v.data.candy_machine_id, r5);
        assert(p5.len() == o + 32);
    }
    assert(le8_at(s, o + 64) == v.data.affiliate_fee_percentage) by {
        let r6 = c7 + c8 + c9 + c10 + c11 + c12 + c13 + rest;
        assert(s =~= p6 + c6 + r6);
        lemma_le8_concat(p6, v.data.affiliate_fee_percentage, r6);
        assert(p6.len() == o + 64);
    }
    assert(s[o + 72] == v.data.affiliate_target_in_sol) by {
        let r7 = c8 + c9 + c10 + c11 + c12 + c13 + rest;
        assert(s =~= p7 + c7 + r7);
        lemma_byte_concat(p7, v.data.affiliate_target_in_sol, r7);
        assert(p7.len() == o + 72);
    }
    assert(s[o + 73] == v.data.max_affiliate_count) by {
        let r8 = c9 + c10 + c11 + c12 + c13 + rest;
        assert(s =~= p8 + c8 + r8);
        lemma_byte_concat(p8, v.data.max_affiliate_count, r8);
        assert(p8.len() == o + 73);
    }
    assert(s[o + 74] == v.data.affiliate_count) by {
        let r9 = c10 + c11 + c12 + c13 + rest;
        assert(s =~= p9 + c9 + r9);
        lemma_byte_concat(p9, v.data.affiliate_count, r9);
        assert(p9.len() == o + 74);
    }
    assert(le4_at(s, o + 75) == t) by {
        let r10 = c11 + c12 + c13 + rest;
        assert(s =~= p10 + c10 + r10);
        lemma_le4_concat(p10, v.data.title.len() as u32, r10);
        assert(p10.len() == o + 75);
    }
    assert(s.subrange(o + 79, o + 79 + t) == c11) by {
        let r11 = c12 + c13 + rest;
        assert(s =~= p11 + c11 + r11);
        lemma_slice_concat(p11, c11, r11);
        assert(p11.len() == o + 79);
    }
    assert(le8_at(s, o + 79 + t) as i64 == v.data.created_at) by {
        let r12 = c13 + rest;
        assert(s =~= p12 + c12 + r12);
        lemma_le8_concat(p12, v.data.created_at as u64, r12);
        crate::wire::lemma_i64_le_round(v.data.created_at);
        assert(p12.len() == o + 79 + t);
    }
    assert(le8_at(s, o + 79 + t + 8) as i64 == v.data.updated_at) by {
        assert(s =~= p13 + c13 + rest);
        lemma_le8_concat(p13, v.data.updated_at as u64, rest);
        crate::wire::lemma_i64_le_round(v.data.updated_at);
        assert(p13.len() == o + 79 + t + 8);
    }

    let w = parse_project(s).unwrap();
    assert(w =~= v);
}

/// A record parsed out of a slot fits back into it: the image is no longer
/// than the bytes it was read from.
pub proof fn lemma_parse_project_fits(s: Seq<u8>)
    ensures
        parse_project(s) matches Some(rec) ==> 101 + rec.discriminator.len()
            + rec.data.title.len() <= s.len(),
{
}

/// A zero-filled slot of at least the fixed layout size decodes, without
/// error, as a record that is not initialized.
pub proof fn lemma_parse_project_zeroed(n: int)
    requires
        n >= 101,
    ensures
        parse_project(crate::accounts::zero_bytes(n)) matches Some(w) && !w.is_initialized
            && w.data.affiliate_count == 0 && w.data.max_affiliate_count == 0,
{
    let s = crate::accounts::zero_bytes(n);
    assert((0u8 as u32) | ((0u8 as u32) << 8) | ((0u8 as u32) << 16) | ((0u8 as u32) << 24) == 0)
        by (bit_vector);
    assert(s[0] == 0 && s[1] == 0 && s[2] == 0 && s[3] == 0);
    assert(le4_at(s, 0) == 0);
    assert(s[4] == 0);
    assert(s[81] == 0 && s[82] == 0 && s[83] == 0 && s[84] == 0);
    assert(le4_at(s, 81) == 0);
    assert(s[79] == 0 && s[80] == 0);
}

/// The seed tuple that binds a project record's address: the type tag, the
/// owner, and the campaign identifier.
pub open spec fn project_seeds(owner: Key, candy_machine_id: Key) -> Seq<Seq<u8>> {
    seq![project_discriminator_bytes(), owner.bytes(), candy_machine_id.bytes()]
}

/// Builds the seed tuple for a project record's address.
pub fn make_project_seeds(owner: &Key, candy_machine_id: &Key) -> (r: Vec<Vec<u8>>)
    ensures
        r.deep_view() == project_seeds(*owner, *candy_machine_id),
{
    let mut r: Vec<Vec<u8>> = Vec::new();
    r.push(project_discriminator());
    r.push(key_to_vec(owner));
    r.push(key_to_vec(candy_machine_id));
    proof {
        assert(r@[0].deep_view() =~= project_discriminator_bytes());
        assert(r@[1].deep_view() =~= owner.bytes());
        assert(r@[2].deep_view() =~= candy_machine_id.bytes());
        assert(r.deep_view() =~= project_seeds(*owner, *candy_machine_id));
    }
    r
}

} // verus!
