//! The affiliate-enrollment record: its fields, its fixed-layout wire image,
//! and the codec proofs that mirror the project record's.

use vstd::prelude::*;
use crate::keys::{Key, key_at, push_key, key_to_vec, lemma_key_concat};
use crate::wire::{
    u32_le_bytes, i64_le_bytes, le4_at, le8_at, bool_byte, push_u32_le, push_i64_le, push_bytes,
    read_u32_le, read_u64_le, read_bytes, overwrite_prefix, lemma_le4_concat, lemma_le8_concat,
    lemma_byte_concat, lemma_slice_concat,
};

verus! {

pub const AFFILIATE_ACCOUNT_DATA_VERSION: u8 = 0;

/// Size of an affiliate record's storage slot: framing (length-prefixed type
/// tag, one flag byte, one version byte), three identities, the cumulative
/// redemption counter, and a timestamp.
pub const AFFILIATE_ACCOUNT_LENGTH: usize = (4 + 17) + 1 + 1 + 32 + 32 + 32 + 4 + 8;

/// The type tag stored at the front of every affiliate record: the bytes of
/// the text `affiliate_account`.
pub open spec fn affiliate_discriminator_bytes() -> Seq<u8> {
    seq![97u8, 102u8, 102u8, 105u8, 108u8, 105u8, 97u8, 116u8, 101u8, 95u8, 97u8, 99u8, 99u8, 111u8, 117u8, 110u8, 116u8]
}

/// The type tag as a byte vector.
pub fn affiliate_discriminator() -> (r: Vec<u8>)
    ensures
        r@ == affiliate_discriminator_bytes(),
{
    let r: Vec<u8> = vec![97u8, 102u8, 102u8, 105u8, 108u8, 105u8, 97u8, 116u8, 101u8, 95u8, 97u8, 99u8, 99u8, 111u8, 117u8, 110u8, 116u8];
    assert(r@ =~= affiliate_discriminator_bytes());
    r
}

/// The fields of an affiliate record.
pub struct AffiliateAccountStateData {
    pub affiliate_pubkey: Key,
    pub project_owner_pubkey: Key,
    pub candy_machine_id: Key,
    pub total_redeemed_amount_in_sol: u32,
    pub created_at: i64,
}

/// An affiliate record with its framing.
pub struct AffiliateAccountState {
    pub discriminator: Vec<u8>,
    pub is_initialized: bool,
    pub data_version: u8,
    pub data: AffiliateAccountStateData,
}

/// The mathematical value of [`AffiliateAccountStateData`].
#[verifier::ext_equal]
pub struct AffiliateAccountStateDataV {
    pub affiliate_pubkey: Key,
    pub project_owner_pubkey: Key,
    pub candy_machine_id: Key,
    pub total_redeemed_amount_in_sol: u32,
    pub created_at: i64,
}

/// The mathematical value of [`AffiliateAccountState`].
#[verifier::ext_equal]
pub struct AffiliateAccountStateV {
    pub discriminator: Seq<u8>,
    pub is_initialized: bool,
    pub data_version: u8,
    pub data: AffiliateAccountStateDataV,
}

impl View for AffiliateAccountStateData {
    type V = AffiliateAccountStateDataV;

    open spec fn view(&self) -> AffiliateAccountStateDataV {
        AffiliateAccountStateDataV {
            affiliate_pubkey: self.affiliate_pubkey,
            project_owner_pubkey: self.project_owner_pubkey,
            candy_machine_id: self.candy_machine_id,
            total_redeemed_amount_in_sol: self.total_redeemed_amount_in_sol,
            created_at: self.created_at,
        }
    }
}

impl View for AffiliateAccountState {
    type V = AffiliateAccountStateV;

    open spec fn view(&self) -> AffiliateAccountStateV {
        AffiliateAccountStateV {
            discriminator: self.discriminator@,
            is_initialized: self.is_initialized,
            data_version: self.data_version,
            data: self.data@,
        }
    }
}

impl AffiliateAccountState {
    /// Whether this record has been initialized.
    pub fn is_initialized(&self) -> (r: bool)
        ensures
            r == self@.is_initialized,
    {
        self.is_initialized
    }
}

impl AffiliateAccountStateV {
    /// The wire image: every field in declaration order, byte strings
    /// length-prefixed, integers little-endian.
    pub open spec fn encoding(self) -> Seq<u8> {
        u32_le_bytes(self.discriminator.len() as u32) + self.discriminator + seq![
            bool_byte(self.is_initialized),
        ] + seq![self.data_version] + self.data.affiliate_pubkey.bytes()
            + self.data.project_owner_pubkey.bytes() + self.data.candy_machine_id.bytes()
            + u32_le_bytes(self.data.total_redeemed_amount_in_sol) + i64_le_bytes(
            self.data.created_at,
        )
    }

    /// How many bytes the wire image takes.
    pub open spec fn encoded_len(self) -> int {
        114 + self.discriminator.len() as int
    }

    pub proof fn lemma_encoding_len(self)
        ensures
            self.encoding().len() == self.encoded_len(),
    {
    }
}

/// Reads an affiliate record out of the front of a slot's bytes; the tail
/// past the image is ignored. `None` when the bytes do not hold a record.
pub open spec fn parse_affiliate(s: Seq<u8>) -> Option<AffiliateAccountStateV> {
    if s.len() < 4 {
        None
    } else {
        let dl = le4_at(s, 0) as int;
        if s.len() < 4 + dl + 2 {
            None
        } else {
            let ib = s[4 + dl];
            if ib != 0 && ib != 1 {
                None
            } else {
                let o = 6 + dl;
                if s.len() < o + 108 {
                    None
                } else {
                    Some(
                        AffiliateAccountStateV {
                            discriminator: s.subrange(4, 4 + dl),
                            is_initialized: ib == 1,
                            data_version: s[5 + dl],
                            data: AffiliateAccountStateDataV {
                                affiliate_pubkey: key_at(s, o),
                                project_owner_pubkey: key_at(s, o + 32),
                                candy_machine_id: key_at(s, o + 64),
                                total_redeemed_amount_in_sol: le4_at(s, o + 96),
                                created_at: le8_at(s, o + 100) as i64,
                            },
                        },
                    )
                }
            }
        }
    }
}

/// Decodes an affiliate record from a slot's bytes.
pub fn decode_affiliate(data: &Vec<u8>) -> (r: Option<AffiliateAccountState>)
    ensures
        r matches Some(rec) ==> parse_affiliate(data@) == Some(rec@),
        r is None ==> parse_affiliate(data@) is None,
{
    let n = data.len();
    if n < 4 {
        return None;
    }
    let dl = read_u32_le(data, 0) as usize;
    if n - 4 < dl {
        return None;
    }
    if n - 4 - dl < 2 {
        return None;
    }
    let disc = read_bytes(data, 4, dl);
    let ib = data[4 + dl];
    if ib != 0 && ib != 1 {
        return None;
    }
    let ver = data[5 + dl];
    let o = 6 + dl;
    if n - o < 108 {
        return None;
    }
    let rec = AffiliateAccountState {
        discriminator: disc,
        is_initialized: ib == 1,
        data_version: ver,
        data: AffiliateAccountStateData {
            affiliate_pubkey: crate::keys::read_key(data, o),
            project_owner_pubkey: crate::keys::read_key(data, o + 32),
            candy_machine_id: crate::keys::read_key(data, o + 64),
            total_redeemed_amount_in_sol: read_u32_le(data, o + 96),
            created_at: #[verifier::truncate] (read_u64_le(data, o + 100) as i64),
        },
    };
    proof {
        let w = parse_affiliate(data@).unwrap();
        assert(rec@ =~= w);
    }
    Some(rec)
}

/// Writes this record's wire image over the front of `slot`, leaving the
/// tail as it was.
pub fn serialize_affiliate_into(rec: &AffiliateAccountState, slot: &mut Vec<u8>)
    requires
        rec@.encoded_len() <= old(slot)@.len(),
    ensures
        final(slot)@ == rec@.encoding() + old(slot)@.skip(rec@.encoded_len()),
{
    let mut out: Vec<u8> = Vec::new();
    push_u32_le(&mut out, #[verifier::truncate] (rec.discriminator.len() as u32));
    push_bytes(&mut out, &rec.discriminator);
    out.push(if rec.is_initialized {
        1
    } else {
        0
    });
    out.push(rec.data_version);
    push_key(&mut out, &rec.data.affiliate_pubkey);
    push_key(&mut out, &rec.data.project_owner_pubkey);
    push_key(&mut out, &rec.data.candy_machine_id);
    push_u32_le(&mut out, rec.data.total_redeemed_amount_in_sol);
    push_i64_le(&mut out, rec.data.created_at);
    proof {
        assert(out@ =~= rec@.encoding());
        rec@.lemma_encoding_len();
    }
    overwrite_prefix(slot, &out);
}

/// The wire image read back gives back the record, whatever follows it in
/// the slot.
#[verifier::rlimit(100)]
#[verifier::spinoff_prover]
pub proof fn lemma_parse_affiliate_encoding(v: AffiliateAccountStateV, rest: Seq<u8>)
    requires
        v.discriminator.len() <= 0xffffffff,
    ensures
        parse_affiliate(v.encoding() + rest) == Some(v),
{
    let d = v.discriminator.len() as int;
    let c0 = u32_le_bytes(v.discriminator.len() as u32);
    let c1 = v.discriminator;
    let c2 = seq![bool_byte(v.is_initialized)];
    let c3 = seq![v.data_version];
    let c4 = v.data.affiliate_pubkey.bytes();
    let c5 = v.data.project_owner_pubkey.bytes();
    let c6 = v.data.candy_machine_id.bytes();
    let c7 = u32_le_bytes(v.data.total_redeemed_amount_in_sol);
    let c8 = i64_le_bytes(v.data.created_at);
    let s = v.encoding() + rest;
    v.lemma_encoding_len();
    assert(s.len() == 114 + d + rest.len());
    let o = 6 + d;
    let p1 = c0;
    let p2 = p1 + c1;
    let p3 = p2 + c2;
    let p4 = p3 + c3;
    let p5 = p4 + c4;
    let p6 = p5 + c5;
    let p7 = p6 + c6;
    let p8 = p7 + c7;

    assert(le4_at(s, 0) == d) by {
        let r0 = c1 + c2 + c3 + c4 + c5 + c6 + c7 + c8 + rest;
        assert(s =~= Seq::<u8>::empty() + c0 + r0);
        lemma_le4_concat(Seq::<u8>::empty(), v.discriminator.len() as u32, r0);
    }
    assert(s.subrange(4, 4 + d) == c1) by {
        let r1 = c2 + c3 + c4 + c5 + c6 + c7 + c8 + rest;
        assert(s =~= p1 + c1 + r1);
        lemma_slice_concat(p1, c1, r1);
    }
    assert(s[4 + d] == bool_byte(v.is_initialized)) by {
        let r2 = c3 + c4 + c5 + c6 + c7 + c8 + rest;
        assert(s =~= p2 + c2 + r2);
        lemma_byte_concat(p2, bool_byte(v.is_initialized), r2);
    }
    assert(s[5 + d] == v.data_version) by {
        let r3 = c4 + c5 + c6 + c7 + c8 + rest;
        assert(s =~= p3 + c3 + r3);
        lemma_byte_concat(p3, v.data_version, r3);
    }
    assert(key_at(s, o) == v.data.affiliate_pubkey) by {
        let r4 = c5 + c6 + c7 + c8 + rest;
        assert(s =~= p4 + c4 + r4);
        lemma_key_concat(p4, v.data.affiliate_pubkey, r4);
    }
    assert(key_at(s, o + 32) == v.data.project_owner_pubkey) by {
        let r5 = c6 + c7 + c8 + rest;
        assert(s =~= p5 + c5 + r5);
        lemma_key_concat(p5, v.data.project_owner_pubkey, r5);
        assert(p5.len() == o + 32);
    }
    assert(key_at(s, o + 64) == v.data.candy_machine_id) by {
        let r6 = c7 + c8 + rest;
        assert(s =~= p6 + c6 + r6);
        lemma_key_concat(p6, v.data.candy_machine_id, r6);
        assert(p6.len() == o + 64);
    }
    assert(le4_at(s, o + 96) == v.data.total_redeemed_amount_in_sol) by {
        let r7 = c8 + rest;
        assert(s =~= p7 + c7 + r7);
        lemma_le4_concat(p7, v.data.total_redeemed_amount_in_sol, r7);
        assert(p7.len() == o + 96);
    }
    assert(le8_at(s, o + 100) as i64 == v.data.created_at) by {
        assert(s =~= p8 + c8 + rest);
        lemma_le8_concat(p8, v.data.created_at as u64, rest);
        crate::wire::lemma_i64_le_round(v.data.created_at);
        assert(p8.len() == o + 100);
    }

    let w = parse_affiliate(s).unwrap();
    assert(w =~= v);
}

/// A record parsed out of a slot fits back into it: the image is no longer
/// than the bytes it was read from.
pub proof fn lemma_parse_affiliate_fits(s: Seq<u8>)
    ensures
        parse_affiliate(s) matches Some(rec) ==> 114 + rec.discriminator.len() <= s.len(),
{
}

/// A zero-filled slot of at least the fixed layout size decodes, without
/// error, as a record that is not initialized and has redeemed nothing.
pub proof fn lemma_parse_affiliate_zeroed(n: int)
    requires
        n >= 114,
    ensures
        parse_affiliate(crate::accounts::zero_bytes(n)) matches Some(w) && !w.is_initialized
            && w.data.total_redeemed_amount_in_sol == 0,
{
    let s = crate::accounts::zero_bytes(n);
    assert((0u8 as u32) | ((0u8 as u32) << 8) | ((0u8 as u32) << 16) | ((0u8 as u32) << 24) == 0)
        by (bit_vector);
    assert(s[0] == 0 && s[1] == 0 && s[2] == 0 && s[3] == 0);
    assert(le4_at(s, 0) == 0);
    assert(s[4] == 0);
    assert(s[102] == 0 && s[103] == 0 && s[104] == 0 && s[105] == 0);
    assert(le4_at(s, 102) == 0);
}

/// The seed tuple that binds an affiliate record's address: the type tag,
/// the affiliate, the project owner, and the campaign identifier.
pub open spec fn affiliate_seeds(affiliate: Key, owner: Key, candy_machine_id: Key) -> Seq<
    Seq<u8>,
> {
    seq![
        affiliate_discriminator_bytes(),
        affiliate.bytes(),
        owner.bytes(),
        candy_machine_id.bytes(),
    ]
}

/// Builds the seed tuple for an affiliate record's address.
pub fn make_affiliate_seeds(affiliate: &Key, owner: &Key, candy_machine_id: &Key) -> (r: Vec<
    Vec<u8>,
>)
    ensures
        r.deep_view() == affiliate_seeds(*affiliate, *owner, *candy_machine_id),
{
    let mut r: Vec<Vec<u8>> = Vec::new();
    r.push(affiliate_discriminator());
    r.push(key_to_vec(affiliate));
    r.push(key_to_vec(owner));
    r.push(key_to_vec(candy_machine_id));
    proof {
        assert(r@[0].deep_view() =~= affiliate_discriminator_bytes());
        assert(r@[1].deep_view() =~= affiliate.bytes());
        assert(r@[2].deep_view() =~= owner.bytes());
        assert(r@[3].deep_view() =~= candy_machine_id.bytes());
        assert(r.deep_view() =~= affiliate_seeds(*affiliate, *owner, *candy_machine_id));
    }
    r
}

} // verus!
