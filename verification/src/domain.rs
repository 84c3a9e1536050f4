//! Domain enums of the book of record: registration types and trade sides.
use vstd::prelude::*;

use crate::text::{split_char, split_on, str_eq, strs, to_uppercase, trim, trim_spec, unicode_uppercase};

verus! {

/// Account / registration types.
#[derive(Clone, Copy, Debug, PartialEq, Eq, Structural)]
pub enum AccountType {
    Individual,
    JointJTWROS,
    JointTenantsInCommon,
    TOD,
    RevocableTrust,
    IrrevocableTrust,
    TraditionalIRA,
    RothIRA,
    RolloverIRA,
    SEPIRA,
    SIMPLEIRA,
    FourOhOneK,
    FourOhThreeB,
    FivedTwentyNine,
    HSA,
    UTMA,
    UGMA,
    Corporate,
    Partnership,
    LLC,
}

/// The display name of a registration type.
pub open spec fn account_type_name(t: AccountType) -> Seq<char> {
    match t {
        AccountType::Individual => "Individual"@,
        AccountType::JointJTWROS => "Joint JTWROS"@,
        AccountType::JointTenantsInCommon => "Joint Tenants in Common"@,
        AccountType::TOD => "TOD"@,
        AccountType::RevocableTrust => "Revocable Trust"@,
        AccountType::IrrevocableTrust => "Irrevocable Trust"@,
        AccountType::TraditionalIRA => "Traditional IRA"@,
        AccountType::RothIRA => "Roth IRA"@,
        AccountType::RolloverIRA => "Rollover IRA"@,
        AccountType::SEPIRA => "SEP IRA"@,
        AccountType::SIMPLEIRA => "SIMPLE IRA"@,
        AccountType::FourOhOneK => "401(k)"@,
        AccountType::FourOhThreeB => "403(b)"@,
        AccountType::FivedTwentyNine => "529"@,
        AccountType::HSA => "HSA"@,
        AccountType::UTMA => "UTMA"@,
        AccountType::UGMA => "UGMA"@,
        AccountType::Corporate => "Corporate"@,
        AccountType::Partnership => "Partnership"@,
        AccountType::LLC => "LLC"@,
    }
}

/// The registration type a display name denotes; unknown names denote `Individual`
/// (the taxable default).
pub open spec fn account_type_of_name(s: Seq<char>) -> AccountType {
    if s == "Joint JTWROS"@ {
        AccountType::JointJTWROS
    } else if s == "Joint Tenants in Common"@ {
        AccountType::JointTenantsInCommon
    } else if s == "TOD"@ {
        AccountType::TOD
    } else if s == "Revocable Trust"@ {
        AccountType::RevocableTrust
    } else if s == "Irrevocable Trust"@ {
        AccountType::IrrevocableTrust
    } else if s == "Traditional IRA"@ {
        AccountType::TraditionalIRA
    } else if s == "Roth IRA"@ {
        AccountType::RothIRA
    } else if s == "Rollover IRA"@ {
        AccountType::RolloverIRA
    } else if s == "SEP IRA"@ {
        AccountType::SEPIRA
    } else if s == "SIMPLE IRA"@ {
        AccountType::SIMPLEIRA
    } else if s == "401(k)"@ {
        AccountType::FourOhOneK
    } else if s == "403(b)"@ {
        AccountType::FourOhThreeB
    } else if s == "529"@ {
        AccountType::FivedTwentyNine
    } else if s == "HSA"@ {
        AccountType::HSA
    } else if s == "UTMA"@ {
        AccountType::UTMA
    } else if s == "UGMA"@ {
        AccountType::UGMA
    } else if s == "Corporate"@ {
        AccountType::Corporate
    } else if s == "Partnership"@ {
        AccountType::Partnership
    } else if s == "LLC"@ {
        AccountType::LLC
    } else {
        AccountType::Individual
    }
}

/// Tax-advantaged registrations (no taxable events on internal trades).
pub open spec fn tax_advantaged(t: AccountType) -> bool {
    match t {
        AccountType::TraditionalIRA => true,
        AccountType::RothIRA => true,
        AccountType::RolloverIRA => true,
        AccountType::SEPIRA => true,
        AccountType::SIMPLEIRA => true,
        AccountType::FourOhOneK => true,
        AccountType::FourOhThreeB => true,
        AccountType::FivedTwentyNine => true,
        AccountType::HSA => true,
        _ => false,
    }
}

impl AccountType {
    /// Is this a tax-advantaged registration?
    pub fn is_tax_advantaged(self) -> (b: bool)
        ensures
            b == tax_advantaged(self),
    {
        match self {
            AccountType::TraditionalIRA => true,
            AccountType::RothIRA => true,
            AccountType::RolloverIRA => true,
            AccountType::SEPIRA => true,
            AccountType::SIMPLEIRA => true,
            AccountType::FourOhOneK => true,
            AccountType::FourOhThreeB => true,
            AccountType::FivedTwentyNine => true,
            AccountType::HSA => true,
            _ => false,
        }
    }

    /// The registration's display name.
    pub fn as_str(self) -> (s: &'static str)
        ensures
            s@ == account_type_name(self),
    {
        match self {
            AccountType::Individual => "Individual",
            AccountType::JointJTWROS => "Joint JTWROS",
            AccountType::JointTenantsInCommon => "Joint Tenants in Common",
            AccountType::TOD => "TOD",
            AccountType::RevocableTrust => "Revocable Trust",
            AccountType::IrrevocableTrust => "Irrevocable Trust",
            AccountType::TraditionalIRA => "Traditional IRA",
            AccountType::RothIRA => "Roth IRA",
            AccountType::RolloverIRA => "Rollover IRA",
            AccountType::SEPIRA => "SEP IRA",
            AccountType::SIMPLEIRA => "SIMPLE IRA",
            AccountType::FourOhOneK => "401(k)",
            AccountType::FourOhThreeB => "403(b)",
            AccountType::FivedTwentyNine => "529",
            AccountType::HSA => "HSA",
            AccountType::UTMA => "UTMA",
            AccountType::UGMA => "UGMA",
            AccountType::Corporate => "Corporate",
            AccountType::Partnership => "Partnership",
            AccountType::LLC => "LLC",
        }
    }

    /// Parse a display name back to the type; unknown names give `Individual`.
    pub fn from_str_name(s: &str) -> (t: AccountType)
        ensures
            t == account_type_of_name(s@),
    {
        if str_eq(s, "Joint JTWROS") {
            AccountType::JointJTWROS
        } else if str_eq(s, "Joint Tenants in Common") {
            AccountType::JointTenantsInCommon
        } else if str_eq(s, "TOD") {
            AccountType::TOD
        } else if str_eq(s, "Revocable Trust") {
            AccountType::RevocableTrust
        } else if str_eq(s, "Irrevocable Trust") {
            AccountType::IrrevocableTrust
        } else if str_eq(s, "Traditional IRA") {
            AccountType::TraditionalIRA
        } else if str_eq(s, "Roth IRA") {
            AccountType::RothIRA
        } else if str_eq(s, "Rollover IRA") {
            AccountType::RolloverIRA
        } else if str_eq(s, "SEP IRA") {
            AccountType::SEPIRA
        } else if str_eq(s, "SIMPLE IRA") {
            AccountType::SIMPLEIRA
        } else if str_eq(s, "401(k)") {
            AccountType::FourOhOneK
        } else if str_eq(s, "403(b)") {
            AccountType::FourOhThreeB
        } else if str_eq(s, "529") {
            AccountType::FivedTwentyNine
        } else if str_eq(s, "HSA") {
            AccountType::HSA
        } else if str_eq(s, "UTMA") {
            AccountType::UTMA
        } else if str_eq(s, "UGMA") {
            AccountType::UGMA
        } else if str_eq(s, "Corporate") {
            AccountType::Corporate
        } else if str_eq(s, "Partnership") {
            AccountType::Partnership
        } else if str_eq(s, "LLC") {
            AccountType::LLC
        } else {
            AccountType::Individual
        }
    }
}

/// Buy or sell.
#[derive(Clone, Copy, Debug, PartialEq, Eq, Structural)]
pub enum TradeAction {
    Buy,
    Sell,
}

/// Name round trip: parsing a registration type's display name gives the type back.
pub proof fn lemma_account_type_name_roundtrip(t: AccountType)
    ensures
        account_type_of_name(account_type_name(t)) == t,
{
    match t {
        AccountType::Individual => {
            reveal_strlit("Individual");
            reveal_strlit("Joint JTWROS");
            assert("Individual"@.len() != "Joint JTWROS"@.len());
            reveal_strlit("Joint Tenants in Common");
            assert("Individual"@.len() != "Joint Tenants in Common"@.len());
            reveal_strlit("TOD");
            assert("Individual"@.len() != "TOD"@.len());
            reveal_strlit("Revocable Trust");
            assert("Individual"@.len() != "Revocable Trust"@.len());
            reveal_strlit("Irrevocable Trust");
            assert("Individual"@.len() != "Irrevocable Trust"@.len());
            reveal_strlit("Traditional IRA");
            assert("Individual"@.len() != "Traditional IRA"@.len());
            reveal_strlit("Roth IRA");
            assert("Individual"@.len() != "Roth IRA"@.len());
            reveal_strlit("Rollover IRA");
            assert("Individual"@.len() != "Rollover IRA"@.len());
            reveal_strlit("SEP IRA");
            assert("Individual"@.len() != "SEP IRA"@.len());
            reveal_strlit("SIMPLE IRA");
            assert("Individual"@[0] != "SIMPLE IRA"@[0]);
            reveal_strlit("401(k)");
            assert("Individual"@.len() != "401(k)"@.len());
            reveal_strlit("403(b)");
            assert("Individual"@.len() != "403(b)"@.len());
            reveal_strlit("529");
            assert("Individual"@.len() != "529"@.len());
            reveal_strlit("HSA");
            assert("Individual"@.len() != "HSA"@.len());
            reveal_strlit("UTMA");
            assert("Individual"@.len() != "UTMA"@.len());
            reveal_strlit("UGMA");
            assert("Individual"@.len() != "UGMA"@.len());
            reveal_strlit("Corporate");
            assert("Individual"@.len() != "Corporate"@.len());
            reveal_strlit("Partnership");
            assert("Individual"@.len() != "Partnership"@.len());
            reveal_strlit("LLC");
            assert("Individual"@.len() != "LLC"@.len());
        },
        AccountType::JointJTWROS => {
            reveal_strlit("Joint JTWROS");
        },
        AccountType::JointTenantsInCommon => {
            reveal_strlit("Joint Tenants in Common");
            reveal_strlit("Joint JTWROS");
            assert("Joint Tenants in Common"@.len() != "Joint JTWROS"@.len());
        },
        AccountType::TOD => {
            reveal_strlit("TOD");
            reveal_strlit("Joint JTWROS");
            assert("TOD"@.len() != "Joint JTWROS"@.len());
            reveal_strlit("Joint Tenants in Common");
            assert("TOD"@.len() != "Joint Tenants in Common"@.len());
        },
        AccountType::RevocableTrust => {
            reveal_strlit("Revocable Trust");
            reveal_strlit("Joint JTWROS");
            assert("Revocable Trust"@.len() != "Joint JTWROS"@.len());
            reveal_strlit("Joint Tenants in Common");
            assert("Revocable Trust"@.len() != "Joint Tenants in Common"@.len());
            reveal_strlit("TOD");
            assert("Revocable Trust"@.len() != "TOD"@.len());
        },
        AccountType::IrrevocableTrust => {
            reveal_strlit("Irrevocable Trust");
            reveal_strlit("Joint JTWROS");
            assert("Irrevocable Trust"@.len() != "Joint JTWROS"@.len());
            reveal_strlit("Joint Tenants in Common");
            assert("Irrevocable Trust"@.len() != "Joint Tenants in Common"@.len());
            reveal_strlit("TOD");
            assert("Irrevocable Trust"@.len() != "TOD"@.len());
            reveal_strlit("Revocable Trust");
            assert("Irrevocable Trust"@.len() != "Revocable Trust"@.len());
        },
        AccountType::TraditionalIRA => {
            reveal_strlit("Traditional IRA");
            reveal_strlit("Joint JTWROS");
            assert("Traditional IRA"@.len() != "Joint JTWROS"@.len());
            reveal_strlit("Joint Tenants in Common");
            assert("Traditional IRA"@.len() != "Joint Tenants in Common"@.len());
            reveal_strlit("TOD");
            assert("Traditional IRA"@.len() != "TOD"@.len());
            reveal_strlit("Revocable Trust");
            assert("Traditional IRA"@[0] != "Revocable Trust"@[0]);
            reveal_strlit("Irrevocable Trust");
            assert("Traditional IRA"@.len() != "Irrevocable Trust"@.len());
        },
        AccountType::RothIRA => {
            reveal_strlit("Roth IRA");
            reveal_strlit("Joint JTWROS");
            assert("Roth IRA"@.len() != "Joint JTWROS"@.len());
            reveal_strlit("Joint Tenants in Common");
            assert("Roth IRA"@.len() != "Joint Tenants in Common"@.len());
            reveal_strlit("TOD");
            assert("Roth IRA"@.len() != "TOD"@.len());
            reveal_strlit("Revocable Trust");
            assert("Roth IRA"@.len() != "Revocable Trust"@.len());
            reveal_strlit("Irrevocable Trust");
            assert("Roth IRA"@.len() != "Irrevocable Trust"@.len());
            reveal_strlit("Traditional IRA");
            assert("Roth IRA"@.len() != "Traditional IRA"@.len());
        },
        AccountType::RolloverIRA => {
            reveal_strlit("Rollover IRA");
            reveal_strlit("Joint JTWROS");
            assert("Rollover IRA"@[0] != "Joint JTWROS"@[0]);
            reveal_strlit("Joint Tenants in Common");
            assert("Rollover IRA"@.len() != "Joint Tenants in Common"@.len());
            reveal_strlit("TOD");
            assert("Rollover IRA"@.len() != "TOD"@.len());
            reveal_strlit("Revocable Trust");
            assert("Rollover IRA"@.len() != "Revocable Trust"@.len());
            reveal_strlit("Irrevocable Trust");
            assert("Rollover IRA"@.len() != "Irrevocable Trust"@.len());
            reveal_strlit("Traditional IRA");
            assert("Rollover IRA"@.len() != "Traditional IRA"@.len());
            reveal_strlit("Roth IRA");
            assert("Rollover IRA"@.len() != "Roth IRA"@.len());
        },
        AccountType::SEPIRA => {
            reveal_strlit("SEP IRA");
            reveal_strlit("Joint JTWROS");
            assert("SEP IRA"@.len() != "Joint JTWROS"@.len());
            reveal_strlit("Joint Tenants in Common");
            assert("SEP IRA"@.len() != "Joint Tenants in Common"@.len());
            reveal_strlit("TOD");
            assert("SEP IRA"@.len() != "TOD"@.len());
            reveal_strlit("Revocable Trust");
            assert("SEP IRA"@.len() != "Revocable Trust"@.len());
            reveal_strlit("Irrevocable Trust");
            assert("SEP IRA"@.len() != "Irrevocable Trust"@.len());
            reveal_strlit("Traditional IRA");
            assert("SEP IRA"@.len() != "Traditional IRA"@.len());
            reveal_strlit("Roth IRA");
            assert("SEP IRA"@.len() != "Roth IRA"@.len());
            reveal_strlit("Rollover IRA");
            assert("SEP IRA"@.len() != "Rollover IRA"@.len());
        },
        AccountType::SIMPLEIRA => {
            reveal_strlit("SIMPLE IRA");
            reveal_strlit("Joint JTWROS");
            assert("SIMPLE IRA"@.len() != "Joint JTWROS"@.len());
            reveal_strlit("Joint Tenants in Common");
            assert("SIMPLE IRA"@.len() != "Joint Tenants in Common"@.len());
            reveal_strlit("TOD");
            assert("SIMPLE IRA"@.len() != "TOD"@.len());
            reveal_strlit("Revocable Trust");
            assert("SIMPLE IRA"@.len() != "Revocable Trust"@.len());
            reveal_strlit("Irrevocable Trust");
            assert("SIMPLE IRA"@.len() != "Irrevocable Trust"@.len());
            reveal_strlit("Traditional IRA");
            assert("SIMPLE IRA"@.len() != "Traditional IRA"@.len());
            reveal_strlit("Roth IRA");
            assert("SIMPLE IRA"@.len() != "Roth IRA"@.len());
            reveal_strlit("Rollover IRA");
            assert("SIMPLE IRA"@.len() != "Rollover IRA"@.len());
            reveal_strlit("SEP IRA");
            assert("SIMPLE IRA"@.len() != "SEP IRA"@.len());
        },
        AccountType::FourOhOneK => {
            reveal_strlit("401(k)");
            reveal_strlit("Joint JTWROS");
            assert("401(k)"@.len() != "Joint JTWROS"@.len());
            reveal_strlit("Joint Tenants in Common");
            assert("401(k)"@.len() != "Joint Tenants in Common"@.len());
            reveal_strlit("TOD");
            assert("401(k)"@.len() != "TOD"@.len());
            reveal_strlit("Revocable Trust");
            assert("401(k)"@.len() != "Revocable Trust"@.len());
            reveal_strlit("Irrevocable Trust");
            assert("401(k)"@.len() != "Irrevocable Trust"@.len());
            reveal_strlit("Traditional IRA");
            assert("401(k)"@.len() != "Traditional IRA"@.len());
            reveal_strlit("Roth IRA");
            assert("401(k)"@.len() != "Roth IRA"@.len());
            reveal_strlit("Rollover IRA");
            assert("401(k)"@.len() != "Rollover IRA"@.len());
            reveal_strlit("SEP IRA");
            assert("401(k)"@.len() != "SEP IRA"@.len());
            reveal_strlit("SIMPLE IRA");
            assert("401(k)"@.len() != "SIMPLE IRA"@.len());
        },
        AccountType::FourOhThreeB => {
            reveal_strlit("403(b)");
            reveal_strlit("Joint JTWROS");
            assert("403(b)"@.len() != "Joint JTWROS"@.len());
            reveal_strlit("Joint Tenants in Common");
            assert("403(b)"@.len() != "Joint Tenants in Common"@.len());
            reveal_strlit("TOD");
            assert("403(b)"@.len() != "TOD"@.len());
            reveal_strlit("Revocable Trust");
            assert("403(b)"@.len() != "Revocable Trust"@.len());
            reveal_strlit("Irrevocable Trust");
            assert("403(b)"@.len() != "Irrevocable Trust"@.len());
            reveal_strlit("Traditional IRA");
            assert("403(b)"@.len() != "Traditional IRA"@.len());
            reveal_strlit("Roth IRA");
            assert("403(b)"@.len() != "Roth IRA"@.len());
            reveal_strlit("Rollover IRA");
            assert("403(b)"@.len() != "Rollover IRA"@.len());
            reveal_strlit("SEP IRA");
            assert("403(b)"@.len() != "SEP IRA"@.len());
            reveal_strlit("SIMPLE IRA");
            assert("403(b)"@.len() != "SIMPLE IRA"@.len());
            reveal_strlit("401(k)");
            assert("403(b)"@[2] != "401(k)"@[2]);
        },
        AccountType::FivedTwentyNine => {
            reveal_strlit("529");
            reveal_strlit("Joint JTWROS");
            assert("529"@.len() != "Joint JTWROS"@.len());
            reveal_strlit("Joint Tenants in Common");
            assert("529"@.len() != "Joint Tenants in Common"@.len());
            reveal_strlit("TOD");
            assert("529"@[0] != "TOD"@[0]);
            reveal_strlit("Revocable Trust");
            assert("529"@.len() != "Revocable Trust"@.len());
            reveal_strlit("Irrevocable Trust");
            assert("529"@.len() != "Irrevocable Trust"@.len());
            reveal_strlit("Traditional IRA");
            assert("529"@.len() != "Traditional IRA"@.len());
            reveal_strlit("Roth IRA");
            assert("529"@.len() != "Roth IRA"@.len());
            reveal_strlit("Rollover IRA");
            assert("529"@.len() != "Rollover IRA"@.len());
            reveal_strlit("SEP IRA");
            assert("529"@.len() != "SEP IRA"@.len());
            reveal_strlit("SIMPLE IRA");
            assert("529"@.len() != "SIMPLE IRA"@.len());
            reveal_strlit("401(k)");
            assert("529"@.len() != "401(k)"@.len());
            reveal_strlit("403(b)");
            assert("529"@.len() != "403(b)"@.len());
        },
        AccountType::HSA => {
            reveal_strlit("HSA");
            reveal_strlit("Joint JTWROS");
            assert("HSA"@.len() != "Joint JTWROS"@.len());
            reveal_strlit("Joint Tenants in Common");
            assert("HSA"@.len() != "Joint Tenants in Common"@.len());
            reveal_strlit("TOD");
            assert("HSA"@[0] != "TOD"@[0]);
            reveal_strlit("Revocable Trust");
            assert("HSA"@.len() != "Revocable Trust"@.len());
            reveal_strlit("Irrevocable Trust");
            assert("HSA"@.len() != "Irrevocable Trust"@.len());
            reveal_strlit("Traditional IRA");
            assert("HSA"@.len() != "Traditional IRA"@.len());
            reveal_strlit("Roth IRA");
            assert("HSA"@.len() != "Roth IRA"@.len());
            reveal_strlit("Rollover IRA");
            assert("HSA"@.len() != "Rollover IRA"@.len());
            reveal_strlit("SEP IRA");
            assert("HSA"@.len() != "SEP IRA"@.len());
            reveal_strlit("SIMPLE IRA");
            assert("HSA"@.len() != "SIMPLE IRA"@.len());
            reveal_strlit("401(k)");
            assert("HSA"@.len() != "401(k)"@.len());
            reveal_strlit("403(b)");
            assert("HSA"@.len() != "403(b)"@.len());
            reveal_strlit("529");
            assert("HSA"@[0] != "529"@[0]);
        },
        AccountType::UTMA => {
            reveal_strlit("UTMA");
            reveal_strlit("Joint JTWROS");
            assert("UTMA"@.len() != "Joint JTWROS"@.len());
            reveal_strlit("Joint Tenants in Common");
            assert("UTMA"@.len() != "Joint Tenants in Common"@.len());
            reveal_strlit("TOD");
            assert("UTMA"@.len() != "TOD"@.len());
            reveal_strlit("Revocable Trust");
            assert("UTMA"@.len() != "Revocable Trust"@.len());
            reveal_strlit("Irrevocable Trust");
            assert("UTMA"@.len() != "Irrevocable Trust"@.len());
            reveal_strlit("Traditional IRA");
            assert("UTMA"@.len() != "Traditional IRA"@.len());
            reveal_strlit("Roth IRA");
            assert("UTMA"@.len() != "Roth IRA"@.len());
            reveal_strlit("Rollover IRA");
            assert("UTMA"@.len() != "Rollover IRA"@.len());
            reveal_strlit("SEP IRA");
            assert("UTMA"@.len() != "SEP IRA"@.len());
            reveal_strlit("SIMPLE IRA");
            assert("UTMA"@.len() != "SIMPLE IRA"@.len());
            reveal_strlit("401(k)");
            assert("UTMA"@.len() != "401(k)"@.len());
            reveal_strlit("403(b)");
            assert("UTMA"@.len() != "403(b)"@.len());
            reveal_strlit("529");
            assert("UTMA"@.len() != "529"@.len());
            reveal_strlit("HSA");
            assert("UTMA"@.len() != "HSA"@.len());
        },
        AccountType::UGMA => {
            reveal_strlit("UGMA");
            reveal_strlit("Joint JTWROS");
            assert("UGMA"@.len() != "Joint JTWROS"@.len());
            reveal_strlit("Joint Tenants in Common");
            assert("UGMA"@.len() != "Joint Tenants in Common"@.len());
            reveal_strlit("TOD");
            assert("UGMA"@.len() != "TOD"@.len());
            reveal_strlit("Revocable Trust");
            assert("UGMA"@.len() != "Revocable Trust"@.len());
            reveal_strlit("Irrevocable Trust");
            assert("UGMA"@.len() != "Irrevocable Trust"@.len());
            reveal_strlit("Traditional IRA");
            assert("UGMA"@.len() != "Traditional IRA"@.len());
            reveal_strlit("Roth IRA");
            assert("UGMA"@.len() != "Roth IRA"@.len());
            reveal_strlit("Rollover IRA");
            assert("UGMA"@.len() != "Rollover IRA"@.len());
            reveal_strlit("SEP IRA");
            assert("UGMA"@.len() != "SEP IRA"@.len());
            reveal_strlit("SIMPLE IRA");
            assert("UGMA"@.len() != "SIMPLE IRA"@.len());
            reveal_strlit("401(k)");
            assert("UGMA"@.len() != "401(k)"@.len());
            reveal_strlit("403(b)");
            assert("UGMA"@.len() != "403(b)"@.len());
            reveal_strlit("529");
            assert("UGMA"@.len() != "529"@.len());
            reveal_strlit("HSA");
            assert("UGMA"@.len() != "HSA"@.len());
            reveal_strlit("UTMA");
            assert("UGMA"@[1] != "UTMA"@[1]);
        },
        AccountType::Corporate => {
            reveal_strlit("Corporate");
            reveal_strlit("Joint JTWROS");
            assert("Corporate"@.len() != "Joint JTWROS"@.len());
            reveal_strlit("Joint Tenants in Common");
            assert("Corporate"@.len() != "Joint Tenants in Common"@.len());
            reveal_strlit("TOD");
            assert("Corporate"@.len() != "TOD"@.len());
            reveal_strlit("Revocable Trust");
            assert("Corporate"@.len() != "Revocable Trust"@.len());
            reveal_strlit("Irrevocable Trust");
            assert("Corporate"@.len() != "Irrevocable Trust"@.len());
            reveal_strlit("Traditional IRA");
            assert("Corporate"@.len() != "Traditional IRA"@.len());
            reveal_strlit("Roth IRA");
            assert("Corporate"@.len() != "Roth IRA"@.len());
            reveal_strlit("Rollover IRA");
            assert("Corporate"@.len() != "Rollover IRA"@.len());
            reveal_strlit("SEP IRA");
            assert("Corporate"@.len() != "SEP IRA"@.len());
            reveal_strlit("SIMPLE IRA");
            assert("Corporate"@.len() != "SIMPLE IRA"@.len());
            reveal_strlit("401(k)");
            assert("Corporate"@.len() != "401(k)"@.len());
            reveal_strlit("403(b)");
            assert("Corporate"@.len() != "403(b)"@.len());
            reveal_strlit("529");
            assert("Corporate"@.len() != "529"@.len());
            reveal_strlit("HSA");
            assert("Corporate"@.len() != "HSA"@.len());
            reveal_strlit("UTMA");
            assert("Corporate"@.len() != "UTMA"@.len());
            reveal_strlit("UGMA");
            assert("Corporate"@.len() != "UGMA"@.len());
        },
        AccountType::Partnership => {
            reveal_strlit("Partnership");
            reveal_strlit("Joint JTWROS");
            assert("Partnership"@.len() != "Joint JTWROS"@.len());
            reveal_strlit("Joint Tenants in Common");
            assert("Partnership"@.len() != "Joint Tenants in Common"@.len());
            reveal_strlit("TOD");
            assert("Partnership"@.len() != "TOD"@.len());
            reveal_strlit("Revocable Trust");
            assert("Partnership"@.len() != "Revocable Trust"@.len());
            reveal_strlit("Irrevocable Trust");
            assert("Partnership"@.len() != "Irrevocable Trust"@.len());
            reveal_strlit("Traditional IRA");
            assert("Partnership"@.len() != "Traditional IRA"@.len());
            reveal_strlit("Roth IRA");
            assert("Partnership"@.len() != "Roth IRA"@.len());
            reveal_strlit("Rollover IRA");
            assert("Partnership"@.len() != "Rollover IRA"@.len());
            reveal_strlit("SEP IRA");
            assert("Partnership"@.len() != "SEP IRA"@.len());
            reveal_strlit("SIMPLE IRA");
            assert("Partnership"@.len() != "SIMPLE IRA"@.len());
            reveal_strlit("401(k)");
            assert("Partnership"@.len() != "401(k)"@.len());
            reveal_strlit("403(b)");
            assert("Partnership"@.len() != "403(b)"@.len());
            reveal_strlit("529");
            assert("Partnership"@.len() != "529"@.len());
            reveal_strlit("HSA");
            assert("Partnership"@.len() != "HSA"@.len());
            reveal_strlit("UTMA");
            assert("Partnership"@.len() != "UTMA"@.len());
            reveal_strlit("UGMA");
            assert("Partnership"@.len() != "UGMA"@.len());
            reveal_strlit("Corporate");
            assert("Partnership"@.len() != "Corporate"@.len());
        },
        AccountType::LLC => {
            reveal_strlit("LLC");
            reveal_strlit("Joint JTWROS");
            assert("LLC"@.len() != "Joint JTWROS"@.len());
            reveal_strlit("Joint Tenants in Common");
            assert("LLC"@.len() != "Joint Tenants in Common"@.len());
            reveal_strlit("TOD");
            assert("LLC"@[0] != "TOD"@[0]);
            reveal_strlit("Revocable Trust");
            assert("LLC"@.len() != "Revocable Trust"@.len());
            reveal_strlit("Irrevocable Trust");
            assert("LLC"@.len() != "Irrevocable Trust"@.len());
            reveal_strlit("Traditional IRA");
            assert("LLC"@.len() != "Traditional IRA"@.len());
            reveal_strlit("Roth IRA");
            assert("LLC"@.len() != "Roth IRA"@.len());
            reveal_strlit("Rollover IRA");
            assert("LLC"@.len() != "Rollover IRA"@.len());
            reveal_strlit("SEP IRA");
            assert("LLC"@.len() != "SEP IRA"@.len());
            reveal_strlit("SIMPLE IRA");
            assert("LLC"@.len() != "SIMPLE IRA"@.len());
            reveal_strlit("401(k)");
            assert("LLC"@.len() != "401(k)"@.len());
            reveal_strlit("403(b)");
            assert("LLC"@.len() != "403(b)"@.len());
            reveal_strlit("529");
            assert("LLC"@[0] != "529"@[0]);
            reveal_strlit("HSA");
            assert("LLC"@[0] != "HSA"@[0]);
            reveal_strlit("UTMA");
            assert("LLC"@.len() != "UTMA"@.len());
            reveal_strlit("UGMA");
            assert("LLC"@.len() != "UGMA"@.len());
            reveal_strlit("Corporate");
            assert("LLC"@.len() != "Corporate"@.len());
            reveal_strlit("Partnership");
            assert("LLC"@.len() != "Partnership"@.len());
        },
    }
}

/// The ticker a model holding is stored under: trimmed, then uppercased; none when nothing is
/// left.
pub open spec fn model_ticker_spec(raw: Seq<char>) -> Option<Seq<char>> {
    let t = unicode_uppercase(trim_spec(raw));
    if t.len() == 0 {
        None
    } else {
        Some(t)
    }
}

/// Normalise a model holding's ticker; `None` for a blank one, which is skipped.
pub fn model_ticker(raw: &str) -> (t: Option<String>)
    ensures
        t matches Some(s) ==> model_ticker_spec(raw@) == Some(s@),
        t is None ==> model_ticker_spec(raw@) is None,
{
    let t = to_uppercase(trim(raw));
    if t.unicode_len() == 0 {
        None
    } else {
        Some(t)
    }
}

/// What precedes the first `:` of `s` (all of `s` when it holds none).
pub open spec fn before_colon(s: Seq<char>) -> Seq<char>
    decreases s.len(),
{
    if s.len() == 0 {
        s
    } else if s[0] == ':' {
        Seq::empty()
    } else {
        seq![s[0]] + before_colon(s.drop_first())
    }
}

/// What follows the first `:` of `s` (nothing when it holds none).
pub open spec fn after_colon(s: Seq<char>) -> Seq<char>
    decreases s.len(),
{
    if s.len() == 0 {
        s
    } else if s[0] == ':' {
        s.drop_first()
    } else {
        after_colon(s.drop_first())
    }
}

/// The `TICKER:price` pairs of `,`-separated pieces: each piece holding a `:` gives its
/// uppercased text before the first `:` and the price text after it; other pieces are
/// skipped.
pub open spec fn quote_pairs_spec(pieces: Seq<Seq<char>>) -> Seq<(Seq<char>, Seq<char>)>
    decreases pieces.len(),
{
    if pieces.len() == 0 {
        Seq::empty()
    } else {
        let r = quote_pairs_spec(pieces.drop_last());
        let p = pieces.last();
        if p.contains(':') {
            r.push((unicode_uppercase(before_colon(p)), after_colon(p)))
        } else {
            r
        }
    }
}

/// The views of string pairs.
pub open spec fn pairs_view(v: Seq<(String, String)>) -> Seq<(Seq<char>, Seq<char>)> {
    v.map_values(|x: (String, String)| (x.0@, x.1@))
}

fn split_colon(s: &str) -> (r: Option<(&str, &str)>)
    ensures
        r is None <==> !s@.contains(':'),
        r matches Some(x) ==> x.0@ == before_colon(s@) && x.1@ == after_colon(s@),
{
    let n = s.unicode_len();
    let mut k: usize = 0;
    assert(s@.skip(0) =~= s@);
    assert(s@.take(0) =~= Seq::<char>::empty());
    while k < n
        invariant
            n == s@.len(),
            k <= n,
            forall|j: int| 0 <= j < k ==> s@[j] != ':',
            before_colon(s@) == s@.take(k as int) + before_colon(s@.skip(k as int)),
            after_colon(s@) == after_colon(s@.skip(k as int)),
        decreases n - k,
    {
        let c = s.get_char(k);
        let ghost rest = s@.skip(k as int);
        assert(rest[0] == c);
        if c == ':' {
            let a = s.substring_char(0, k);
            let b = s.substring_char(k + 1, n);
            assert(rest.drop_first() =~= b@);
            assert(before_colon(rest) =~= Seq::<char>::empty());
            assert(s@.take(k as int) + Seq::<char>::empty() =~= a@);
            return Some((a, b));
        }
        assert(rest.drop_first() =~= s@.skip(k + 1));
        assert(s@.take(k + 1) =~= s@.take(k as int) + seq![c]);
        k = k + 1;
    }
    assert(!s@.contains(':')) by {
        if s@.contains(':') {
            let j = choose|j: int| 0 <= j < s@.len() && s@[j] == ':';
            assert(s@[j] != ':');
        }
    }
    None
}

/// Split a quotes parameter `AAPL:200,MSFT:400` into uppercased ticker and price-text
/// pairs, in order; pieces without a `:` are skipped. Reading the prices is left to the
/// caller.
pub fn quote_pairs(q: &str) -> (pairs: Vec<(String, String)>)
    ensures
        pairs_view(pairs@) == quote_pairs_spec(split_on(q@, ',')),
{
    let pieces = split_char(q, ',');
    let ghost ps = strs(pieces@);
    let mut out: Vec<(String, String)> = Vec::new();
    let mut i: usize = 0;
    assert(ps.take(0) =~= Seq::<Seq<char>>::empty());
    while i < pieces.len()
        invariant
            ps == strs(pieces@),
            i <= pieces@.len(),
            pairs_view(out@) == quote_pairs_spec(ps.take(i as int)),
        decreases pieces@.len() - i,
    {
        assert(ps.take(i + 1).drop_last() =~= ps.take(i as int));
        assert(ps.take(i + 1).last() == pieces@[i as int]@);
        match split_colon(pieces[i].as_str()) {
            Some((t, p)) => {
                let ghost before = out@;
                out.push((to_uppercase(t), String::from_str(p)));
                assert(pairs_view(out@) =~= pairs_view(before).push(
                    (unicode_uppercase(t@), p@),
                ));
            },
            None => {},
        }
        i = i + 1;
    }
    assert(ps.take(i as int) =~= ps);
    out
}

} // verus!
