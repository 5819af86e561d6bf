use vstd::prelude::*;
use crate::error::ErrorCode;
use crate::pubkey::Pubkey;
use crate::state::Config;

verus! {

/// Initialising the configuration: the host's input.
#[derive(Clone, Copy, Debug)]
pub struct InitializeConfig {
    /// Address-derivation bump of the configuration record.
    pub bump: u8,
}

/// The result of initialising the configuration: success, or the first check that fails.
pub open spec fn initialize_config_result(
    platform_fee_bps: u16,
    creator_fee_bps: u16,
    base_price_lamports: u64,
    min_duration_secs: u32,
    max_duration_secs: u32,
) -> Result<(), ErrorCode> {
    if platform_fee_bps + creator_fee_bps > 10000 {
        Err(ErrorCode::FeesTooHigh)
    } else if min_duration_secs >= max_duration_secs {
        Err(ErrorCode::InvalidDurationRange)
    } else if base_price_lamports == 0 {
        Err(ErrorCode::InvalidBasePrice)
    } else {
        Ok(())
    }
}

/// Validates the economic parameters and returns the configuration that holds them.
pub fn handler(
    ctx: &InitializeConfig,
    admin_address: Pubkey,
    platform_fee_bps: u16,
    creator_fee_bps: u16,
    base_price_lamports: u64,
    malus_k_millis: u32,
    quad_a_micros: u64,
    quad_b_micros: u64,
    min_duration_secs: u32,
    max_duration_secs: u32,
) -> (r: Result<Config, ErrorCode>)
    ensures
        r is Ok <==> initialize_config_result(
            platform_fee_bps,
            creator_fee_bps,
            base_price_lamports,
            min_duration_secs,
            max_duration_secs,
        ) is Ok,
        r is Err ==> r->Err_0 == initialize_config_result(
            platform_fee_bps,
            creator_fee_bps,
            base_price_lamports,
            min_duration_secs,
            max_duration_secs,
        )->Err_0,
        r matches Ok(c) ==> c == (Config {
            admin_address,
            platform_fee_bps,
            creator_fee_bps,
            base_price_lamports,
            malus_k_millis,
            quad_a_micros,
            quad_b_micros,
            min_duration_secs,
            max_duration_secs,
            bump: ctx.bump,
        }),
        r matches Ok(c) ==> c.wf(),
{
    if platform_fee_bps as u32 + creator_fee_bps as u32 > 10000 {
        return Err(ErrorCode::FeesTooHigh);
    }
    if min_duration_secs >= max_duration_secs {
        return Err(ErrorCode::InvalidDurationRange);
    }
    if base_price_lamports == 0 {
        return Err(ErrorCode::InvalidBasePrice);
    }
    Ok(
        Config {
            admin_address,
            platform_fee_bps,
            creator_fee_bps,
            base_price_lamports,
            malus_k_millis,
            quad_a_micros,
            quad_b_micros,
            min_duration_secs,
            max_duration_secs,
            bump: ctx.bump,
        },
    )
}

} // verus!
