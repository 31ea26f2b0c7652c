//! Quote and swap value objects, and the pure parts of the quote gateway:
//! request construction, parameter defaults, and id-list joining. The HTTP
//! exchange itself is I/O and lives outside the library.

use vstd::prelude::*;

verus! {

#[derive(Clone, Copy, Debug, PartialEq, Eq, Structural)]
pub enum SwapMode {
    ExactIn,
    ExactOut,
}

impl SwapMode {
    pub fn label(&self) -> (r: String)
        ensures
            *self == SwapMode::ExactIn ==> r@ == "ExactIn"@,
            *self == SwapMode::ExactOut ==> r@ == "ExactOut"@,
    {
        match self {
            SwapMode::ExactIn => String::from_str("ExactIn"),
            SwapMode::ExactOut => String::from_str("ExactOut"),
        }
    }
}

impl Default for SwapMode {
    fn default() -> (r: Self)
        ensures
            r == SwapMode::ExactIn,
    {
        SwapMode::ExactIn
    }
}

/// A quote request as the external routing service takes it; `amount` is the
/// input amount as a decimal string of smallest units.
#[derive(Clone, Debug)]
pub struct QuoteRequest {
    pub input_mint: String,
    pub output_mint: String,
    pub amount: String,
    pub slippage_bps: Option<u16>,
    pub dexes: Option<Vec<String>>,
    pub exclude_dexes: Option<Vec<String>>,
    pub only_direct_routes: Option<bool>,
    pub as_legacy_transaction: Option<bool>,
    pub restrict_middleware_take: Option<bool>,
    pub platform_fee_bps: Option<u16>,
    pub max_accounts: Option<u8>,
}

impl QuoteRequest {
    /// The one-call form: everything but the pair and the amount in
    /// smallest units is defaulted.
    pub fn simple(input_mint: String, output_mint: String, amount: u64) -> (r: QuoteRequest)
        ensures
            r.input_mint@ == input_mint@,
            r.output_mint@ == output_mint@,
            r.amount@ == spec_dec_str(amount as int),
            r.slippage_bps == Some(50u16),
            r.dexes is None,
            r.exclude_dexes is None,
            r.only_direct_routes == Some(false),
            r.as_legacy_transaction == Some(false),
            r.restrict_middleware_take == Some(false),
            r.platform_fee_bps is None,
            r.max_accounts == Some(64u8),
    {
        QuoteRequest {
            input_mint,
            output_mint,
            amount: u64_to_dec_string(amount),
            slippage_bps: Some(50),
            dexes: None,
            exclude_dexes: None,
            only_direct_routes: Some(false),
            as_legacy_transaction: Some(false),
            restrict_middleware_take: Some(false),
            platform_fee_bps: None,
            max_accounts: Some(64),
        }
    }

    /// The slippage the gateway sends when the request leaves it unset.
    pub open spec fn spec_effective_slippage_bps(&self) -> u16 {
        match self.slippage_bps {
            Some(v) => v,
            None => 50u16,
        }
    }

    pub fn effective_slippage_bps(&self) -> (r: u16)
        ensures
            r == self.spec_effective_slippage_bps(),
    {
        match self.slippage_bps {
            Some(v) => v,
            None => 50,
        }
    }

    /// The account budget the gateway sends when the request leaves it unset.
    pub open spec fn spec_effective_max_accounts(&self) -> u8 {
        match self.max_accounts {
            Some(v) => v,
            None => 64u8,
        }
    }

    pub fn effective_max_accounts(&self) -> (r: u8)
        ensures
            r == self.spec_effective_max_accounts(),
    {
        match self.max_accounts {
            Some(v) => v,
            None => 64,
        }
    }

    /// The query the gateway sends for this request: every field filled,
    /// the unset ones with their documented defaults.
    pub fn query_params(&self) -> (r: Vec<(String, String)>)
        ensures
            r@.len() == 9,
            r@[0].0@ == "inputMint"@ && r@[0].1@ == self.input_mint@,
            r@[1].0@ == "outputMint"@ && r@[1].1@ == self.output_mint@,
            r@[2].0@ == "amount"@ && r@[2].1@ == self.amount@,
            r@[3].0@ == "slippageBps"@ && r@[3].1@ == spec_dec_str(
                self.spec_effective_slippage_bps() as int,
            ),
            r@[4].0@ == "dexes"@ && r@[4].1@ == (match self.dexes {
                Some(d) => spec_join_comma(d@),
                None => Seq::<char>::empty(),
            }),
            r@[5].0@ == "excludeDexes"@ && r@[5].1@ == (match self.exclude_dexes {
                Some(d) => spec_join_comma(d@),
                None => Seq::<char>::empty(),
            }),
            r@[6].0@ == "onlyDirectRoutes"@ && r@[6].1@ == (if self.only_direct_routes
                == Some(true) {
                "true"@
            } else {
                "false"@
            }),
            r@[7].0@ == "asLegacyTransaction"@ && r@[7].1@ == (if self.as_legacy_transaction
                == Some(true) {
                "true"@
            } else {
                "false"@
            }),
            r@[8].0@ == "maxAccounts"@ && r@[8].1@ == spec_dec_str(
                self.spec_effective_max_accounts() as int,
            ),
    {
        let mut out: Vec<(String, String)> = Vec::new();
        out.push((String::from_str("inputMint"), self.input_mint.clone()));
        out.push((String::from_str("outputMint"), self.output_mint.clone()));
        out.push((String::from_str("amount"), self.amount.clone()));
        out.push(
            (
                String::from_str("slippageBps"),
                u64_to_dec_string(self.effective_slippage_bps() as u64),
            ),
        );
        let dexes = match &self.dexes {
            Some(d) => join_comma(d),
            None => String::new(),
        };
        out.push((String::from_str("dexes"), dexes));
        let exclude = match &self.exclude_dexes {
            Some(d) => join_comma(d),
            None => String::new(),
        };
        out.push((String::from_str("excludeDexes"), exclude));
        let direct = match self.only_direct_routes {
            Some(b) => b,
            None => false,
        };
        out.push((String::from_str("onlyDirectRoutes"), String::from_str(bool_str(direct))));
        let legacy = match self.as_legacy_transaction {
            Some(b) => b,
            None => false,
        };
        out.push((String::from_str("asLegacyTransaction"), String::from_str(bool_str(legacy))));
        out.push(
            (
                String::from_str("maxAccounts"),
                u64_to_dec_string(self.effective_max_accounts() as u64),
            ),
        );
        out
    }
}

#[derive(Clone, Debug)]
pub struct PlatformFee {
    pub amount: String,
    pub fee_bps: u16,
}

#[derive(Clone, Debug)]
pub struct SwapInfo {
    pub amm_key: String,
    pub label: Option<String>,
    pub input_mint: String,
    pub output_mint: String,
    pub in_amount: String,
    pub out_amount: String,
    pub fee_amount: String,
    pub fee_mint: String,
}

#[derive(Clone, Debug)]
pub struct RoutePlan {
    pub swap_info: SwapInfo,
    pub percent: u8,
}

/// A built swap, ready to sign: the unsigned transaction payload in base64
/// and its validity horizon.
#[derive(Clone, Debug)]
pub struct SwapResponse {
    pub swap_transaction: String,
    pub last_valid_block_height: u64,
    pub prioritization_fee_lamports: Option<u64>,
}

/// A priced, time-limited exchange proposal, with amounts in smallest units.
/// Price impact is carried in basis points.
#[derive(Clone, Debug)]
pub struct Quote {
    pub input_mint: String,
    pub output_mint: String,
    pub in_amount: u64,
    pub out_amount: u64,
    pub other_amount_threshold: u64,
    pub slippage_bps: u16,
    pub price_impact_bps: u32,
    pub context_slot: u64,
    pub quote_id: Option<String>,
}

/// One decimal digit as text.
pub open spec fn spec_dec_digit(d: int) -> Seq<char> {
    if d == 0 {
        "0"@
    } else if d == 1 {
        "1"@
    } else if d == 2 {
        "2"@
    } else if d == 3 {
        "3"@
    } else if d == 4 {
        "4"@
    } else if d == 5 {
        "5"@
    } else if d == 6 {
        "6"@
    } else if d == 7 {
        "7"@
    } else if d == 8 {
        "8"@
    } else {
        "9"@
    }
}

/// The decimal text of a non-negative number, no leading zeros but for
/// zero itself.
pub open spec fn spec_dec_str(n: int) -> Seq<char>
    decreases n,
{
    if n < 10 {
        spec_dec_digit(n)
    } else {
        spec_dec_str(n / 10) + spec_dec_digit(n % 10)
    }
}

fn dec_digit_str(d: u64) -> (r: &'static str)
    requires
        d < 10,
    ensures
        r@ == spec_dec_digit(d as int),
{
    match d {
        0 => "0",
        1 => "1",
        2 => "2",
        3 => "3",
        4 => "4",
        5 => "5",
        6 => "6",
        7 => "7",
        8 => "8",
        _ => "9",
    }
}

/// Format a number the way the service's query strings carry amounts.
pub fn u64_to_dec_string(n: u64) -> (r: String)
    ensures
        r@ == spec_dec_str(n as int),
    decreases n,
{
    if n < 10 {
        String::from_str(dec_digit_str(n))
    } else {
        let mut s = u64_to_dec_string(n / 10);
        s.append(dec_digit_str(n % 10));
        s
    }
}

fn bool_str(b: bool) -> (r: &'static str)
    ensures
        b ==> r@ == "true"@,
        !b ==> r@ == "false"@,
{
    if b {
        "true"
    } else {
        "false"
    }
}

/// The comma-joined form of a list of token ids, as the price endpoint
/// takes them.
pub open spec fn spec_join_comma(items: Seq<String>) -> Seq<char>
    decreases items.len(),
{
    if items.len() == 0 {
        Seq::<char>::empty()
    } else if items.len() == 1 {
        items[0]@
    } else {
        spec_join_comma(items.drop_last()) + ","@ + items.last()@
    }
}

pub fn join_comma(items: &Vec<String>) -> (r: String)
    ensures
        r@ == spec_join_comma(items@),
{
    let mut acc = String::new();
    let n = items.len();
    if n == 0 {
        return acc;
    }
    acc.append(items[0].as_str());
    assert(acc@ == spec_join_comma(items@.take(1)));
    let mut i: usize = 1;
    while i < n
        invariant
            1 <= i <= n,
            n == items@.len(),
            acc@ == spec_join_comma(items@.take(i as int)),
        decreases n - i,
    {
        acc.append(",");
        acc.append(items[i].as_str());
        proof {
            assert(items@.take(i + 1 as int).drop_last() =~= items@.take(i as int));
            assert(items@.take(i + 1 as int).last() == items@[i as int]);
        }
        i = i + 1;
    }
    proof {
        assert(items@.take(n as int) =~= items@);
    }
    acc
}

} // verus!
