//! The command decoder: an opaque byte buffer becomes one of the six typed
//! operations. The first byte selects the variant; the rest is that
//! variant's payload, which must be consumed exactly.

use vstd::prelude::*;
use crate::keys::{Key, key_at, read_key};
use crate::wire::{le4_at, le8_at, read_u32_le, read_u64_le, read_bytes};
use crate::error::ProgramFault;

verus! {

/// Payload of RegisterProject: campaign, fee image, target, maximum, title.
pub struct RegisterProjectPayload {
    pub candy_machine_id: Key,
    pub affiliate_fee_percentage: u64,
    pub affiliate_target_in_sol: u8,
    pub max_affiliate_count: u8,
    pub title: Vec<u8>,
}

/// Payload of UpdateProject: owner, campaign, fee image, target, maximum,
/// title.
pub struct UpdateProjectPayload {
    pub project_owner_pubkey: Key,
    pub candy_machine_id: Key,
    pub affiliate_fee_percentage: u64,
    pub affiliate_target_in_sol: u8,
    pub max_affiliate_count: u8,
    pub title: Vec<u8>,
}

/// Payload of CloseProject: owner and campaign.
pub struct CloseProjectPayload {
    pub project_owner_pubkey: Key,
    pub candy_machine_id: Key,
}

/// Payload of RegisterAffiliate: owner and campaign.
pub struct RegisterAffiliatePayload {
    pub project_owner_pubkey: Key,
    pub candy_machine_id: Key,
}

/// Payload of RedeemReward: owner and campaign.
pub struct RedeemRewardPayload {
    pub project_owner_pubkey: Key,
    pub candy_machine_id: Key,
}

/// Payload of CloseAffiliateAccount: affiliate, owner and campaign.
pub struct CloseAffiliatePayload {
    pub affiliate_pubkey: Key,
    pub project_owner_pubkey: Key,
    pub candy_machine_id: Key,
}

/// What a RegisterProject payload holds: a campaign identity, the fee's
/// eight-byte image, two one-byte bounds, and a length-prefixed title that
/// must end exactly at the end of the buffer.
pub open spec fn parse_register_project_payload(s: Seq<u8>) -> Option<(Key, u64, u8, u8, Seq<u8>)> {
    if s.len() < 46 {
        None
    } else {
        let tl = le4_at(s, 42) as int;
        if s.len() != 46 + tl {
            None
        } else {
            Some((key_at(s, 0), le8_at(s, 32), s[40], s[41], s.subrange(46, 46 + tl)))
        }
    }
}

/// What an UpdateProject payload holds: the owner, then the same fields as a
/// RegisterProject payload.
pub open spec fn parse_update_project_payload(s: Seq<u8>) -> Option<
    (Key, Key, u64, u8, u8, Seq<u8>),
> {
    if s.len() < 78 {
        None
    } else {
        let tl = le4_at(s, 74) as int;
        if s.len() != 78 + tl {
            None
        } else {
            Some(
                (key_at(s, 0), key_at(s, 32), le8_at(s, 64), s[72], s[73], s.subrange(78, 78 + tl)),
            )
        }
    }
}

/// What a two-identity payload holds: exactly two identities.
pub open spec fn parse_two_keys_payload(s: Seq<u8>) -> Option<(Key, Key)> {
    if s.len() != 64 {
        None
    } else {
        Some((key_at(s, 0), key_at(s, 32)))
    }
}

/// What a three-identity payload holds: exactly three identities.
pub open spec fn parse_three_keys_payload(s: Seq<u8>) -> Option<(Key, Key, Key)> {
    if s.len() != 96 {
        None
    } else {
        Some((key_at(s, 0), key_at(s, 32), key_at(s, 64)))
    }
}

impl RegisterProjectPayload {
    /// Decodes a RegisterProject payload.
    pub fn parse(s: &Vec<u8>) -> (r: Option<Self>)
        ensures
            (match parse_register_project_payload(s@) {
                Some(t) => r matches Some(p) && p.candy_machine_id == t.0
                    && p.affiliate_fee_percentage == t.1 && p.affiliate_target_in_sol == t.2
                    && p.max_affiliate_count == t.3 && p.title@ == t.4,
                None => r is None,
            }),
    {
        let n = s.len();
        if n < 46 {
            return None;
        }
        let tl = read_u32_le(s, 42) as usize;
        if n - 46 != tl {
            return None;
        }
        Some(
            RegisterProjectPayload {
                candy_machine_id: read_key(s, 0),
                affiliate_fee_percentage: read_u64_le(s, 32),
                affiliate_target_in_sol: s[40],
                max_affiliate_count: s[41],
                title: read_bytes(s, 46, tl),
            },
        )
    }
}

impl UpdateProjectPayload {
    /// Decodes an UpdateProject payload.
    pub fn parse(s: &Vec<u8>) -> (r: Option<Self>)
        ensures
            (match parse_update_project_payload(s@) {
                Some(t) => r matches Some(p) && p.project_owner_pubkey == t.0
                    && p.candy_machine_id == t.1 && p.affiliate_fee_percentage == t.2
                    && p.affiliate_target_in_sol == t.3 && p.max_affiliate_count == t.4 && p.title@
                    == t.5,
                None => r is None,
            }),
    {
        let n = s.len();
        if n < 78 {
            return None;
        }
        let tl = read_u32_le(s, 74) as usize;
        if n - 78 != tl {
            return None;
        }
        Some(
            UpdateProjectPayload {
                project_owner_pubkey: read_key(s, 0),
                candy_machine_id: read_key(s, 32),
                affiliate_fee_percentage: read_u64_le(s, 64),
                affiliate_target_in_sol: s[72],
                max_affiliate_count: s[73],
                title: read_bytes(s, 78, tl),
            },
        )
    }
}

impl CloseProjectPayload {
    /// Decodes a CloseProject payload.
    pub fn parse(s: &Vec<u8>) -> (r: Option<Self>)
        ensures
            (match parse_two_keys_payload(s@) {
                Some(t) => r matches Some(p) && p.project_owner_pubkey == t.0
                    && p.candy_machine_id == t.1,
                None => r is None,
            }),
    {
        if s.len() != 64 {
            return None;
        }
        Some(CloseProjectPayload { project_owner_pubkey: read_key(s, 0), candy_machine_id: read_key(s, 32) })
    }
}

impl RegisterAffiliatePayload {
    /// Decodes a RegisterAffiliate payload.
    pub fn parse(s: &Vec<u8>) -> (r: Option<Self>)
        ensures
            (match parse_two_keys_payload(s@) {
                Some(t) => r matches Some(p) && p.project_owner_pubkey == t.0
                    && p.candy_machine_id == t.1,
                None => r is None,
            }),
    {
        if s.len() != 64 {
            return None;
        }
        Some(RegisterAffiliatePayload { project_owner_pubkey: read_key(s, 0), candy_machine_id: read_key(s, 32) })
    }
}

impl RedeemRewardPayload {
    /// Decodes a RedeemReward payload.
    pub fn parse(s: &Vec<u8>) -> (r: Option<Self>)
        ensures
            (match parse_two_keys_payload(s@) {
                Some(t) => r matches Some(p) && p.project_owner_pubkey == t.0
                    && p.candy_machine_id == t.1,
                None => r is None,
            }),
    {
        if s.len() != 64 {
            return None;
        }
        Some(RedeemRewardPayload { project_owner_pubkey: read_key(s, 0), candy_machine_id: read_key(s, 32) })
    }
}

impl CloseAffiliatePayload {
    /// Decodes a CloseAffiliateAccount payload.
    pub fn parse(s: &Vec<u8>) -> (r: Option<Self>)
        ensures
            (match parse_three_keys_payload(s@) {
                Some(t) => r matches Some(p) && p.affiliate_pubkey == t.0
                    && p.project_owner_pubkey == t.1 && p.candy_machine_id == t.2,
                None => r is None,
            }),
    {
        if s.len() != 96 {
            return None;
        }
        Some(
            CloseAffiliatePayload {
                affiliate_pubkey: read_key(s, 0),
                project_owner_pubkey: read_key(s, 32),
                candy_machine_id: read_key(s, 64),
            },
        )
    }
}

/// One of the six operations, as decoded from a command buffer.
pub enum CandyMachineAffiliatesInstruction {
    RegisterProject {
        candy_machine_id: Key,
        affiliate_fee_percentage: u64,
        affiliate_target_in_sol: u8,
        max_affiliate_count: u8,
        title: Vec<u8>,
    },
    UpdateProject {
        project_owner_pubkey: Key,
        candy_machine_id: Key,
        affiliate_fee_percentage: u64,
        affiliate_target_in_sol: u8,
        max_affiliate_count: u8,
        title: Vec<u8>,
    },
    CloseProject { project_owner_pubkey: Key, candy_machine_id: Key },
    RegisterAffiliate { project_owner_pubkey: Key, candy_machine_id: Key },
    RedeemReward { project_owner_pubkey: Key, candy_machine_id: Key },
    CloseAffiliateAccount { affiliate_pubkey: Key, project_owner_pubkey: Key, candy_machine_id: Key },
}

/// The mathematical value of [`CandyMachineAffiliatesInstruction`].
#[verifier::ext_equal]
pub enum CandyMachineAffiliatesInstructionV {
    RegisterProject {
        candy_machine_id: Key,
        affiliate_fee_percentage: u64,
        affiliate_target_in_sol: u8,
        max_affiliate_count: u8,
        title: Seq<u8>,
    },
    UpdateProject {
        project_owner_pubkey: Key,
        candy_machine_id: Key,
        affiliate_fee_percentage: u64,
        affiliate_target_in_sol: u8,
        max_affiliate_count: u8,
        title: Seq<u8>,
    },
    CloseProject { project_owner_pubkey: Key, candy_machine_id: Key },
    RegisterAffiliate { project_owner_pubkey: Key, candy_machine_id: Key },
    RedeemReward { project_owner_pubkey: Key, candy_machine_id: Key },
    CloseAffiliateAccount { affiliate_pubkey: Key, project_owner_pubkey: Key, candy_machine_id: Key },
}

impl View for CandyMachineAffiliatesInstruction {
    type V = CandyMachineAffiliatesInstructionV;

    open spec fn view(&self) -> CandyMachineAffiliatesInstructionV {
        match self {
            CandyMachineAffiliatesInstruction::RegisterProject {
                candy_machine_id,
                affiliate_fee_percentage,
                affiliate_target_in_sol,
                max_affiliate_count,
                title,
            } => CandyMachineAffiliatesInstructionV::RegisterProject {
                candy_machine_id: *candy_machine_id,
                affiliate_fee_percentage: *affiliate_fee_percentage,
                affiliate_target_in_sol: *affiliate_target_in_sol,
                max_affiliate_count: *max_affiliate_count,
                title: title@,
            },
            CandyMachineAffiliatesInstruction::UpdateProject {
                project_owner_pubkey,
                candy_machine_id,
                affiliate_fee_percentage,
                affiliate_target_in_sol,
                max_affiliate_count,
                title,
            } => CandyMachineAffiliatesInstructionV::UpdateProject {
                project_owner_pubkey: *project_owner_pubkey,
                candy_machine_id: *candy_machine_id,
                affiliate_fee_percentage: *affiliate_fee_percentage,
                affiliate_target_in_sol: *affiliate_target_in_sol,
                max_affiliate_count: *max_affiliate_count,
                title: title@,
            },
            CandyMachineAffiliatesInstruction::CloseProject { project_owner_pubkey, candy_machine_id } => CandyMachineAffiliatesInstructionV::CloseProject {
                project_owner_pubkey: *project_owner_pubkey,
                candy_machine_id: *candy_machine_id,
            },
            CandyMachineAffiliatesInstruction::RegisterAffiliate { project_owner_pubkey, candy_machine_id } => CandyMachineAffiliatesInstructionV::RegisterAffiliate {
                project_owner_pubkey: *project_owner_pubkey,
                candy_machine_id: *candy_machine_id,
            },
            CandyMachineAffiliatesInstruction::RedeemReward { project_owner_pubkey, candy_machine_id } => CandyMachineAffiliatesInstructionV::RedeemReward {
                project_owner_pubkey: *project_owner_pubkey,
                candy_machine_id: *candy_machine_id,
            },
            CandyMachineAffiliatesInstruction::CloseAffiliateAccount {
                affiliate_pubkey,
                project_owner_pubkey,
                candy_machine_id,
            } => CandyMachineAffiliatesInstructionV::CloseAffiliateAccount {
                affiliate_pubkey: *affiliate_pubkey,
                project_owner_pubkey: *project_owner_pubkey,
                candy_machine_id: *candy_machine_id,
            },
        }
    }
}

/// What a whole command buffer decodes to: the first byte selects the
/// variant (six are known), the rest is that variant's payload. An empty
/// buffer, an unknown variant byte, or a malformed payload is an invalid
/// command and has no effect.
pub open spec fn unpack_spec(input: Seq<u8>) -> Result<
    CandyMachineAffiliatesInstructionV,
    ProgramFault,
> {
    if input.len() == 0 {
        Err(ProgramFault::InvalidInstructionData)
    } else {
        let rest = input.skip(1);
        if input[0] == 0 {
            match parse_register_project_payload(rest) {
                None => Err(ProgramFault::InvalidInstructionData),
                Some(t) => Ok(
                    CandyMachineAffiliatesInstructionV::RegisterProject {
                        candy_machine_id: t.0,
                        affiliate_fee_percentage: t.1,
                        affiliate_target_in_sol: t.2,
                        max_affiliate_count: t.3,
                        title: t.4,
                    },
                ),
            }
        } else if input[0] == 1 {
            match parse_update_project_payload(rest) {
                None => Err(ProgramFault::InvalidInstructionData),
                Some(t) => Ok(
                    CandyMachineAffiliatesInstructionV::UpdateProject {
                        project_owner_pubkey: t.0,
                        candy_machine_id: t.1,
                        affiliate_fee_percentage: t.2,
                        affiliate_target_in_sol: t.3,
                        max_affiliate_count: t.4,
                        title: t.5,
                    },
                ),
            }
        } else if input[0] == 2 {
            match parse_two_keys_payload(rest) {
                None => Err(ProgramFault::InvalidInstructionData),
                Some(t) => Ok(
                    CandyMachineAffiliatesInstructionV::CloseProject {
                        project_owner_pubkey: t.0,
                        candy_machine_id: t.1,
                    },
                ),
            }
        } else if input[0] == 3 {
            match parse_two_keys_payload(rest) {
                None => Err(ProgramFault::InvalidInstructionData),
                Some(t) => Ok(
                    CandyMachineAffiliatesInstructionV::RegisterAffiliate {
                        project_owner_pubkey: t.0,
                        candy_machine_id: t.1,
                    },
                ),
            }
        } else if input[0] == 4 {
            match parse_two_keys_payload(rest) {
                None => Err(ProgramFault::InvalidInstructionData),
                Some(t) => Ok(
                    CandyMachineAffiliatesInstructionV::RedeemReward {
                        project_owner_pubkey: t.0,
                        candy_machine_id: t.1,
                    },
                ),
            }
        } else if input[0] == 5 {
            match parse_three_keys_payload(rest) {
                None => Err(ProgramFault::InvalidInstructionData),
                Some(t) => Ok(
                    CandyMachineAffiliatesInstructionV::CloseAffiliateAccount {
                        affiliate_pubkey: t.0,
                        project_owner_pubkey: t.1,
                        candy_machine_id: t.2,
                    },
                ),
            }
        } else {
            Err(ProgramFault::InvalidInstructionData)
        }
    }
}

impl CandyMachineAffiliatesInstruction {
    /// Decodes a command buffer into its operation.
    pub fn unpack(input: &Vec<u8>) -> (r: Result<Self, ProgramFault>)
        ensures
            (match unpack_spec(input@) {
                Ok(iv) => r matches Ok(i) && i@ == iv,
                Err(e) => r matches Err(f) && f == e,
            }),
    {
        let n = input.len();
        if n == 0 {
            return Err(ProgramFault::InvalidInstructionData);
        }
        let variant = input[0];
        let rest = read_bytes(input, 1, n - 1);
        proof {
            assert(rest@ =~= input@.skip(1));
        }
        match variant {
            0 => {
                match RegisterProjectPayload::parse(&rest) {
                    None => Err(ProgramFault::InvalidInstructionData),
                    Some(p) => Ok(
                        CandyMachineAffiliatesInstruction::RegisterProject {
                            candy_machine_id: p.candy_machine_id,
                            affiliate_fee_percentage: p.affiliate_fee_percentage,
                            affiliate_target_in_sol: p.affiliate_target_in_sol,
                            max_affiliate_count: p.max_affiliate_count,
                            title: p.title,
                        },
                    ),
                }
            },
            1 => {
                match UpdateProjectPayload::parse(&rest) {
                    None => Err(ProgramFault::InvalidInstructionData),
                    Some(p) => Ok(
                        CandyMachineAffiliatesInstruction::UpdateProject {
                            project_owner_pubkey: p.project_owner_pubkey,
                            candy_machine_id: p.candy_machine_id,
                            affiliate_fee_percentage: p.affiliate_fee_percentage,
                            affiliate_target_in_sol: p.affiliate_target_in_sol,
                            max_affiliate_count: p.max_affiliate_count,
                            title: p.title,
                        },
                    ),
                }
            },
            2 => {
                match CloseProjectPayload::parse(&rest) {
                    None => Err(ProgramFault::InvalidInstructionData),
                    Some(p) => Ok(
                        CandyMachineAffiliatesInstruction::CloseProject {
                            project_owner_pubkey: p.project_owner_pubkey,
                            candy_machine_id: p.candy_machine_id,
                        },
                    ),
                }
            },
            3 => {
                match RegisterAffiliatePayload::parse(&rest) {
                    None => Err(ProgramFault::InvalidInstructionData),
                    Some(p) => Ok(
                        CandyMachineAffiliatesInstruction::RegisterAffiliate {
                            project_owner_pubkey: p.project_owner_pubkey,
                            candy_machine_id: p.candy_machine_id,
                        },
                    ),
                }
            },
            4 => {
                match RedeemRewardPayload::parse(&rest) {
                    None => Err(ProgramFault::InvalidInstructionData),
                    Some(p) => Ok(
                        CandyMachineAffiliatesInstruction::RedeemReward {
                            project_owner_pubkey: p.project_owner_pubkey,
                            candy_machine_id: p.candy_machine_id,
                        },
                    ),
                }
            },
            5 => {
                match CloseAffiliatePayload::parse(&rest) {
                    None => Err(ProgramFault::InvalidInstructionData),
                    Some(p) => Ok(
                        CandyMachineAffiliatesInstruction::CloseAffiliateAccount {
                            affiliate_pubkey: p.affiliate_pubkey,
                            project_owner_pubkey: p.project_owner_pubkey,
                            candy_machine_id: p.candy_machine_id,
                        },
                    ),
                }
            },
            _ => Err(ProgramFault::InvalidInstructionData),
        }
    }
}

} // verus!
