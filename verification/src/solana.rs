//! Token mints the agent trades, and their decimal scales.

use vstd::prelude::*;

verus! {

pub const SOL_MINT: &'static str = "So11111111111111111111111111111111111111112";

pub const USDC_MINT: &'static str = "EPjFWdd5AufqSSqeM2qN1xzybapC8G4wEGGkZwyTDt1v";

pub const USDT_MINT: &'static str = "Es9vMFrzaCERmJfrF4H2FYD4KCoNkY11McCe8BenwNYB";

pub const BONK_MINT: &'static str = "DezXAZ8z7PnrnRJjz3wXBoRgixCa6xjnB7YaB1pPB263";

pub const RAY_MINT: &'static str = "4k3Dyjzvzp8eMZWUXbBCjEvwSkkk59S5iCNLY3QrkX6R";

pub const ORCA_MINT: &'static str = "orcaEKTdK7LKz57vaAYr9QeNsVEPfiu6QeMU1kektZE";

pub const SOL_DECIMALS: u8 = 9;

pub const USDC_DECIMALS: u8 = 6;

pub const USDT_DECIMALS: u8 = 6;

pub const BONK_DECIMALS: u8 = 5;

pub const RAY_DECIMALS: u8 = 6;

pub const ORCA_DECIMALS: u8 = 6;

/// A mint is known when it is one of the tokens the agent supports.
pub open spec fn spec_is_supported_mint(m: Seq<char>) -> bool {
    ||| m == "So11111111111111111111111111111111111111112"@
    ||| m == "EPjFWdd5AufqSSqeM2qN1xzybapC8G4wEGGkZwyTDt1v"@
    ||| m == "Es9vMFrzaCERmJfrF4H2FYD4KCoNkY11McCe8BenwNYB"@
    ||| m == "DezXAZ8z7PnrnRJjz3wXBoRgixCa6xjnB7YaB1pPB263"@
    ||| m == "4k3Dyjzvzp8eMZWUXbBCjEvwSkkk59S5iCNLY3QrkX6R"@
    ||| m == "orcaEKTdK7LKz57vaAYr9QeNsVEPfiu6QeMU1kektZE"@
}

pub fn is_supported_mint(m: &String) -> (r: bool)
    ensures
        r == spec_is_supported_mint(m@),
{
    let sol = String::from_str(SOL_MINT);
    let usdc = String::from_str(USDC_MINT);
    let usdt = String::from_str(USDT_MINT);
    let bonk = String::from_str(BONK_MINT);
    let ray = String::from_str(RAY_MINT);
    let orca = String::from_str(ORCA_MINT);
    *m == sol || *m == usdc || *m == usdt || *m == bonk || *m == ray || *m == orca
}

/// The decimal scale of each supported token's smallest unit.
pub open spec fn spec_decimals_for_mint(m: Seq<char>) -> Option<u8> {
    if m == "So11111111111111111111111111111111111111112"@ {
        Some(9u8)
    } else if m == "EPjFWdd5AufqSSqeM2qN1xzybapC8G4wEGGkZwyTDt1v"@ {
        Some(6u8)
    } else if m == "Es9vMFrzaCERmJfrF4H2FYD4KCoNkY11McCe8BenwNYB"@ {
        Some(6u8)
    } else if m == "DezXAZ8z7PnrnRJjz3wXBoRgixCa6xjnB7YaB1pPB263"@ {
        Some(5u8)
    } else if m == "4k3Dyjzvzp8eMZWUXbBCjEvwSkkk59S5iCNLY3QrkX6R"@ {
        Some(6u8)
    } else if m == "orcaEKTdK7LKz57vaAYr9QeNsVEPfiu6QeMU1kektZE"@ {
        Some(6u8)
    } else {
        None
    }
}

pub fn decimals_for_mint(m: &String) -> (r: Option<u8>)
    ensures
        r == spec_decimals_for_mint(m@),
{
    let sol = String::from_str(SOL_MINT);
    let usdc = String::from_str(USDC_MINT);
    let usdt = String::from_str(USDT_MINT);
    let bonk = String::from_str(BONK_MINT);
    let ray = String::from_str(RAY_MINT);
    let orca = String::from_str(ORCA_MINT);
    if *m == sol {
        Some(SOL_DECIMALS)
    } else if *m == usdc {
        Some(USDC_DECIMALS)
    } else if *m == usdt {
        Some(USDT_DECIMALS)
    } else if *m == bonk {
        Some(BONK_DECIMALS)
    } else if *m == ray {
        Some(RAY_DECIMALS)
    } else if *m == orca {
        Some(ORCA_DECIMALS)
    } else {
        None
    }
}

} // verus!
