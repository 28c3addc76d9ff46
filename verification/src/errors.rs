//! The errors the library reports.
use vstd::prelude::*;

verus! {

/// A refused request, one variant per reason.
#[derive(Clone, Copy, Debug, PartialEq, Eq, Structural)]
pub enum QlError {
    /// A leg without flows has no dates.
    EmptyLeg,
    /// No settlement date was given and no evaluation date is set.
    NoReferenceDate,
    /// An index fixing was asked for with no evaluation date set.
    NoEvaluationDate,
    /// An inflation period is only defined for monthly or coarser frequencies.
    FrequencyNotHandled,
    /// A physical settlement was paired with a cash method.
    InvalidPhysicalSettlementMethod,
    /// A cash settlement was paired with a physical method.
    InvalidCashSettlementMethod,
    /// A date on which the index does not fix.
    InvalidFixingDate,
    /// A swap was given a different number of payer flags than legs.
    PayerLegSizeMismatch,
    /// A leg index past the last leg.
    LegOutOfRange,
    /// A swap without legs has no dates.
    NoLegs,
    /// A schedule was given period regularity flags not matching its periods.
    RegularityMismatch,
    /// A compounding counted in periods was given no recurring frequency.
    FrequencyNotAllowed,
    /// A fixed-rate leg was built without coupon rates.
    NoCouponRates,
    /// A leg was built without notionals.
    NoNotional,
    /// A leg was built over a schedule of fewer than two dates.
    ScheduleTooShort,
    /// An ibor coupon was asked whether it has fixed with no evaluation date
    /// set.
    NoCouponReferenceDate,
    /// A leg was given more notionals than its schedule has periods.
    TooManyNotionals,
    /// A leg was given more gearings than its schedule has periods.
    TooManyGearings,
    /// A leg was given more spreads than its schedule has periods.
    TooManySpreads,
    /// A credit-default swap was given an empty schedule.
    EmptySchedule,
    /// A credit-default swap's protection was set to start after its first
    /// accrual date.
    ProtectionAfterAccrual,
    /// A credit-default swap would settle in cash before its protection
    /// starts.
    SettlementBeforeProtection,
    /// A credit-default swap trading on or after its first accrual date
    /// would rebate an accrued coupon, which it does not compute.
    AccruedRebate,
    /// A coupon was given an accrual start not before its end.
    StartNotBeforeEnd,
    /// A coupon was given a payment date before its accrual end.
    PaymentBeforeAccrualEnd,
    /// An overnight coupon was asked to average its fixings arithmetically,
    /// which it does not compute.
    SimpleAveraging,
    /// A year-on-year inflation leg was built without a payment day counter.
    NoPaymentDayCounter,
    /// A pricing engine was given a different number of legs and signs.
    LegMultiplierMismatch,
    /// A result the pricing engine did not deliver was asked for.
    ResultNotAvailable,
    /// A pricing engine delivered leg values but not one per leg.
    WrongLegNpvCount,
    /// A pricing engine delivered leg sensitivities but not one per leg.
    WrongLegBpsCount,
    /// A pricing engine delivered start discounts but not one per leg.
    WrongStartDiscountCount,
    /// A pricing engine delivered end discounts but not one per leg.
    WrongEndDiscountCount,
    /// Fixed-leg nominals do not match the fixed payment dates.
    FixedNominalsMismatch,
    /// Fixed-leg start dates do not match the fixed payment dates.
    FixedResetDatesMismatch,
    /// Fixed-leg amounts do not match the fixed payment dates.
    FixedCouponsMismatch,
    /// Floating-leg nominals do not match the floating payment dates.
    FloatingNominalsMismatch,
    /// Floating-leg start dates do not match the floating payment dates.
    FloatingResetDatesMismatch,
    /// Floating-leg fixing dates do not match the floating payment dates.
    FloatingFixingDatesMismatch,
    /// Floating-leg accrual times do not match the floating payment dates.
    FloatingAccrualTimesMismatch,
    /// Floating-leg spreads do not match the floating payment dates.
    FloatingSpreadsMismatch,
    /// Floating-leg amounts do not match the floating payment dates.
    FloatingCouponsMismatch,
    /// A single nominal was asked of a swap whose nominals vary.
    NominalNotConstant,
    /// The nominals of a swap whose legs have different ones were asked for.
    NominalsDiffer,
    /// A credit-default swap result the pricing engine did not deliver: fair spread.
    FairSpreadNotAvailable,
    /// A credit-default swap result the pricing engine did not deliver: fair upfront.
    FairUpfrontNotAvailable,
    /// A credit-default swap result the pricing engine did not deliver: coupon-leg BPS.
    CouponLegBpsNotAvailable,
    /// A credit-default swap result the pricing engine did not deliver: coupon-leg NPV.
    CouponLegNpvNotAvailable,
    /// A credit-default swap result the pricing engine did not deliver: default-leg NPV.
    DefaultLegNpvNotAvailable,
    /// A credit-default swap result the pricing engine did not deliver: upfront NPV.
    UpfrontNpvNotAvailable,
    /// A credit-default swap result the pricing engine did not deliver: upfront BPS.
    UpfrontBpsNotAvailable,
    /// A credit-default swap result the pricing engine did not deliver: accrual Rebate NPV.
    AccrualRebateNpvNotAvailable,
    /// An overnight indexed swap's start date was to be derived with no
    /// evaluation date set.
    NoSwapReferenceDate,
    /// An index's last fixing date was asked for with nothing on record.
    NoFixingsStored,
    /// A fixing was to be forecast, which needs a curve that is not there.
    EmptyHandle,
    /// A fixing that should be on record is not.
    MissingFixing,
    /// A cap or floor was given no coupons.
    NoCoupons,
    /// A cap or collar was given no cap rates.
    NoCapRates,
    /// A floor or collar was given no floor rates.
    NoFloorRates,
    /// A cap or floor was given no strikes.
    NoStrikes,
    /// A collar was to be built from a single vector of strikes.
    CollarNeedsTwoStrikeVectors,
    /// An optionlet past the end of the leg was asked for.
    OptionletOutOfRange,
    /// A cap/floor argument bundle without its instrument type.
    CapFloorTypeNotSet,
    /// A cap/floor argument bundle without its index.
    NoInflationIndex,
    /// A cap/floor argument bundle with a payment date count other than its coupon count.
    PayDateCountMismatch,
    /// A cap/floor argument bundle with a fixing date count other than its coupon count.
    FixingDateCountMismatch,
    /// A cap/floor argument bundle with an accrual time count other than its coupon count.
    AccrualTimeCountMismatch,
    /// A cap/floor argument bundle with a cap strike count other than its coupon count.
    CapRateCountMismatch,
    /// A cap/floor argument bundle with a floor strike count other than its coupon count.
    FloorRateCountMismatch,
    /// A cap/floor argument bundle with a gearing count other than its coupon count.
    GearingCountMismatch,
    /// A cap/floor argument bundle with a spread count other than its coupon count.
    SpreadCountMismatch,
    /// A cap/floor argument bundle with a nominal count other than its coupon count.
    NominalCountMismatch,
    /// A year-on-year cap/floor's start date was to be derived with no
    /// evaluation date set.
    NoCapFloorReferenceDate,
    /// A cap/floor was given both an explicit strike and an at-the-money curve.
    StrikeAndAtmCurve,
    /// A cap/floor was given neither a strike nor an at-the-money curve.
    NoStrike,
    /// A cap/floor struck at the money was built without its at-the-money rate.
    NoAtmRate,
    /// A frequency that does not recur at a whole number of units.
    UnknownFrequency,
    /// Periods in units that do not convert into each other were added.
    ImpossiblePeriodAddition,
    /// Periods whose order depends on the calendar were compared.
    UndecidablePeriodComparison,
    /// An observation lag shorter than the index's availability lag.
    LagBelowAvailability,
    /// An observation lag, less the interpolated index period, shorter than the index's availability lag.
    LagBelowAvailabilityAndPeriod,
    /// A forward rate agreement whose value date is not before its maturity.
    ValueDateNotBeforeMaturity,
    /// A forward rate agreement's settlement amount asked for before it was computed.
    AmountNotProvided,
    /// Pricing arguments carry no protection side.
    SideNotSet,
    /// Pricing arguments carry no notional.
    NotionalNotSet,
    /// Pricing arguments carry a zero notional.
    NullNotional,
    /// Pricing arguments carry no running spread.
    SpreadNotSet,
    /// Pricing arguments carry no premium coupons.
    CouponsNotSet,
    /// Pricing arguments carry no upfront payment.
    UpfrontPaymentNotSet,
    /// Pricing arguments carry no claim.
    ClaimNotSet,
    /// Pricing arguments carry no protection start date.
    ProtectionStartNotSet,
    /// Pricing arguments carry no maturity date.
    MaturityNotSet,
    /// An agreement was given a notional that is not positive.
    NotionalNotPositive,
    /// A floating coupon was given a zero gearing.
    NullGearing,
}

impl QlError {
    /// The human-readable message of the error.
    pub fn message(&self) -> (r: String)
        ensures
            r@ == self.message_spec(),
    {
        match self {
            QlError::EmptyLeg => String::from_str("empty leg"),
            QlError::NoReferenceDate => String::from_str(
                "no evaluation date set: a settlement date is needed",
            ),
            QlError::NoEvaluationDate => String::from_str(
                "no evaluation date set: an index fixing needs a reference date",
            ),
            QlError::FrequencyNotHandled => String::from_str("frequency not handled"),
            QlError::InvalidPhysicalSettlementMethod => String::from_str(
                "invalid settlement method for physical settlement",
            ),
            QlError::InvalidCashSettlementMethod => String::from_str(
                "invalid settlement method for cash settlement",
            ),
            QlError::InvalidFixingDate => String::from_str("not a valid fixing date"),
            QlError::PayerLegSizeMismatch => String::from_str(
                "size mismatch between payer and legs",
            ),
            QlError::LegOutOfRange => String::from_str("leg doesn't exist"),
            QlError::NoLegs => String::from_str("no legs given"),
            QlError::RegularityMismatch => String::from_str(
                "isRegular size must be zero or equal to the number of dates minus 1",
            ),
            QlError::FrequencyNotAllowed => String::from_str(
                "frequency not allowed for this interest rate",
            ),
            QlError::NoCouponRates => String::from_str("no coupon rates given"),
            QlError::NoNotional => String::from_str("no notional given"),
            QlError::ScheduleTooShort => String::from_str("schedule spans no period"),
            QlError::NoCouponReferenceDate => String::from_str(
                "no evaluation date set: an ibor coupon needs a reference date",
            ),
            QlError::TooManyNotionals => String::from_str("too many notionals"),
            QlError::TooManyGearings => String::from_str("too many gearings"),
            QlError::TooManySpreads => String::from_str("too many spreads"),
            QlError::EmptySchedule => String::from_str(
                "CreditDefaultSwap needs a non-empty schedule.",
            ),
            QlError::ProtectionAfterAccrual => String::from_str(
                "protection can not start after accrual",
            ),
            QlError::SettlementBeforeProtection => String::from_str(
                "The cash settlement date must not be before the protection start date.",
            ),
            QlError::AccruedRebate => String::from_str(
                "a trade date on or after the first accrual date rebates the accrued coupon, which is not supported",
            ),
            QlError::StartNotBeforeEnd => String::from_str("startDate must be less than endDate"),
            QlError::PaymentBeforeAccrualEnd => String::from_str(
                "Payment date cannot be earlier than accrual end date",
            ),
            QlError::SimpleAveraging => String::from_str(
                "simple-averaged overnight coupon not supported: only compound averaging",
            ),
            QlError::NoPaymentDayCounter => String::from_str("no payment daycounter given"),
            QlError::LegMultiplierMismatch => String::from_str("number of legs and multipliers differ"),
            QlError::ResultNotAvailable => String::from_str("result not available"),
            QlError::WrongLegNpvCount => String::from_str("wrong number of leg NPV returned"),
            QlError::WrongLegBpsCount => String::from_str("wrong number of leg BPS returned"),
            QlError::WrongStartDiscountCount => String::from_str(
                "wrong number of leg start discounts returned",
            ),
            QlError::WrongEndDiscountCount => String::from_str(
                "wrong number of leg end discounts returned",
            ),
            QlError::FixedNominalsMismatch => String::from_str("number of fixed nominals different from number of fixed payment dates"),
            QlError::FixedResetDatesMismatch => String::from_str("number of fixed start dates different from number of fixed payment dates"),
            QlError::FixedCouponsMismatch => String::from_str("number of fixed payment dates different from number of fixed coupon amounts"),
            QlError::FloatingNominalsMismatch => String::from_str("number of floating nominals different from number of floating payment dates"),
            QlError::FloatingResetDatesMismatch => String::from_str("number of floating start dates different from number of floating payment dates"),
            QlError::FloatingFixingDatesMismatch => String::from_str("number of floating fixing dates different from number of floating payment dates"),
            QlError::FloatingAccrualTimesMismatch => String::from_str("number of floating accrual Times different from number of floating payment dates"),
            QlError::FloatingSpreadsMismatch => String::from_str("number of floating spreads different from number of floating payment dates"),
            QlError::FloatingCouponsMismatch => String::from_str("number of floating payment dates different from number of floating coupon amounts"),
            QlError::NominalNotConstant => String::from_str("nominal is not constant"),
            QlError::NominalsDiffer => String::from_str("different nominals on fixed and floating leg"),
            QlError::FairSpreadNotAvailable => String::from_str("fair spread not available"),
            QlError::FairUpfrontNotAvailable => String::from_str("fair upfront not available"),
            QlError::CouponLegBpsNotAvailable => String::from_str("coupon-leg BPS not available"),
            QlError::CouponLegNpvNotAvailable => String::from_str("coupon-leg NPV not available"),
            QlError::DefaultLegNpvNotAvailable => String::from_str("default-leg NPV not available"),
            QlError::UpfrontNpvNotAvailable => String::from_str("upfront NPV not available"),
            QlError::UpfrontBpsNotAvailable => String::from_str("upfront BPS not available"),
            QlError::AccrualRebateNpvNotAvailable => String::from_str("accrual Rebate NPV not available"),
            QlError::NoSwapReferenceDate => String::from_str(
                "no evaluation date set: MakeOIS needs a reference date to derive the start date",
            ),
            QlError::NoFixingsStored => String::from_str("no fixings stored"),
            QlError::EmptyHandle => String::from_str("empty Handle cannot be dereferenced"),
            QlError::MissingFixing => String::from_str("Missing fixing"),
            QlError::NullGearing => String::from_str("Null gearing not allowed"),
            QlError::NotionalNotPositive => String::from_str("notionalAmount must be positive"),
            QlError::MaturityNotSet => String::from_str("maturity date not set"),
            QlError::ProtectionStartNotSet => String::from_str("protection start date not set"),
            QlError::ClaimNotSet => String::from_str("claim not set"),
            QlError::UpfrontPaymentNotSet => String::from_str("upfront payment not set"),
            QlError::CouponsNotSet => String::from_str("coupons not set"),
            QlError::SpreadNotSet => String::from_str("spread not set"),
            QlError::NullNotional => String::from_str("null notional set"),
            QlError::NotionalNotSet => String::from_str("notional not set"),
            QlError::SideNotSet => String::from_str("side not set"),
            QlError::AmountNotProvided => String::from_str("amount not provided"),
            QlError::ValueDateNotBeforeMaturity => String::from_str("valueDate must be earlier than maturityDate"),
            QlError::LagBelowAvailabilityAndPeriod => String::from_str("inconsistency between swap observation lag, interpolated index period and index availability: need (obsLag-index period) >= availLag"),
            QlError::LagBelowAvailability => String::from_str("index tries to observe inflation fixings that do not yet exist"),
            QlError::UndecidablePeriodComparison => String::from_str("undecidable comparison between periods"),
            QlError::ImpossiblePeriodAddition => String::from_str("impossible addition between periods"),
            QlError::UnknownFrequency => String::from_str("unknown frequency"),
            QlError::NoAtmRate => String::from_str("no at-the-money rate given"),
            QlError::NoStrike => String::from_str("no strike and no ATM curve given"),
            QlError::StrikeAndAtmCurve => String::from_str("explicit strike and ATM curve both given"),
            QlError::NoCapFloorReferenceDate => String::from_str("no evaluation date set: MakeYoYInflationCapFloor needs a reference date to derive the start date"),
            QlError::NominalCountMismatch => String::from_str("nominal count mismatch"),
            QlError::SpreadCountMismatch => String::from_str("spread count mismatch"),
            QlError::GearingCountMismatch => String::from_str("gearing count mismatch"),
            QlError::FloorRateCountMismatch => String::from_str("floor-rate count mismatch"),
            QlError::CapRateCountMismatch => String::from_str("cap-rate count mismatch"),
            QlError::AccrualTimeCountMismatch => String::from_str("accrual-time count mismatch"),
            QlError::FixingDateCountMismatch => String::from_str("fixing-date count mismatch"),
            QlError::PayDateCountMismatch => String::from_str("pay-date count mismatch"),
            QlError::NoInflationIndex => String::from_str("no inflation index given"),
            QlError::CapFloorTypeNotSet => String::from_str("cap/floor type not set"),
            QlError::OptionletOutOfRange => String::from_str("optionlet does not exist"),
            QlError::CollarNeedsTwoStrikeVectors => String::from_str("only Cap/Floor types allowed in this constructor"),
            QlError::NoStrikes => String::from_str("no strikes given"),
            QlError::NoFloorRates => String::from_str("no floor rates given"),
            QlError::NoCapRates => String::from_str("no cap rates given"),
            QlError::NoCoupons => String::from_str("no coupons given"),
        }
    }

    /// The message of the error, as characters.
    pub open spec fn message_spec(&self) -> Seq<char> {
        match self {
            QlError::EmptyLeg => "empty leg"@,
            QlError::NoReferenceDate => "no evaluation date set: a settlement date is needed"@,
            QlError::NoEvaluationDate => "no evaluation date set: an index fixing needs a reference date"@,
            QlError::FrequencyNotHandled => "frequency not handled"@,
            QlError::InvalidPhysicalSettlementMethod => "invalid settlement method for physical settlement"@,
            QlError::InvalidCashSettlementMethod => "invalid settlement method for cash settlement"@,
            QlError::InvalidFixingDate => "not a valid fixing date"@,
            QlError::PayerLegSizeMismatch => "size mismatch between payer and legs"@,
            QlError::LegOutOfRange => "leg doesn't exist"@,
            QlError::NoLegs => "no legs given"@,
            QlError::RegularityMismatch => "isRegular size must be zero or equal to the number of dates minus 1"@,
            QlError::FrequencyNotAllowed => "frequency not allowed for this interest rate"@,
            QlError::NoCouponRates => "no coupon rates given"@,
            QlError::NoNotional => "no notional given"@,
            QlError::ScheduleTooShort => "schedule spans no period"@,
            QlError::NoCouponReferenceDate => "no evaluation date set: an ibor coupon needs a reference date"@,
            QlError::TooManyNotionals => "too many notionals"@,
            QlError::TooManyGearings => "too many gearings"@,
            QlError::TooManySpreads => "too many spreads"@,
            QlError::EmptySchedule => "CreditDefaultSwap needs a non-empty schedule."@,
            QlError::ProtectionAfterAccrual => "protection can not start after accrual"@,
            QlError::SettlementBeforeProtection => "The cash settlement date must not be before the protection start date."@,
            QlError::AccruedRebate => "a trade date on or after the first accrual date rebates the accrued coupon, which is not supported"@,
            QlError::StartNotBeforeEnd => "startDate must be less than endDate"@,
            QlError::PaymentBeforeAccrualEnd => "Payment date cannot be earlier than accrual end date"@,
            QlError::SimpleAveraging => "simple-averaged overnight coupon not supported: only compound averaging"@,
            QlError::NoPaymentDayCounter => "no payment daycounter given"@,
            QlError::LegMultiplierMismatch => "number of legs and multipliers differ"@,
            QlError::ResultNotAvailable => "result not available"@,
            QlError::WrongLegNpvCount => "wrong number of leg NPV returned"@,
            QlError::WrongLegBpsCount => "wrong number of leg BPS returned"@,
            QlError::WrongStartDiscountCount => "wrong number of leg start discounts returned"@,
            QlError::WrongEndDiscountCount => "wrong number of leg end discounts returned"@,
            QlError::FixedNominalsMismatch => "number of fixed nominals different from number of fixed payment dates"@,
            QlError::FixedResetDatesMismatch => "number of fixed start dates different from number of fixed payment dates"@,
            QlError::FixedCouponsMismatch => "number of fixed payment dates different from number of fixed coupon amounts"@,
            QlError::FloatingNominalsMismatch => "number of floating nominals different from number of floating payment dates"@,
            QlError::FloatingResetDatesMismatch => "number of floating start dates different from number of floating payment dates"@,
            QlError::FloatingFixingDatesMismatch => "number of floating fixing dates different from number of floating payment dates"@,
            QlError::FloatingAccrualTimesMismatch => "number of floating accrual Times different from number of floating payment dates"@,
            QlError::FloatingSpreadsMismatch => "number of floating spreads different from number of floating payment dates"@,
            QlError::FloatingCouponsMismatch => "number of floating payment dates different from number of floating coupon amounts"@,
            QlError::NominalNotConstant => "nominal is not constant"@,
            QlError::NominalsDiffer => "different nominals on fixed and floating leg"@,
            QlError::FairSpreadNotAvailable => "fair spread not available"@,
            QlError::FairUpfrontNotAvailable => "fair upfront not available"@,
            QlError::CouponLegBpsNotAvailable => "coupon-leg BPS not available"@,
            QlError::CouponLegNpvNotAvailable => "coupon-leg NPV not available"@,
            QlError::DefaultLegNpvNotAvailable => "default-leg NPV not available"@,
            QlError::UpfrontNpvNotAvailable => "upfront NPV not available"@,
            QlError::UpfrontBpsNotAvailable => "upfront BPS not available"@,
            QlError::AccrualRebateNpvNotAvailable => "accrual Rebate NPV not available"@,
            QlError::NoSwapReferenceDate => "no evaluation date set: MakeOIS needs a reference date to derive the start date"@,
            QlError::NoFixingsStored => "no fixings stored"@,
            QlError::EmptyHandle => "empty Handle cannot be dereferenced"@,
            QlError::MissingFixing => "Missing fixing"@,
            QlError::NullGearing => "Null gearing not allowed"@,
            QlError::NotionalNotPositive => "notionalAmount must be positive"@,
            QlError::MaturityNotSet => "maturity date not set"@,
            QlError::ProtectionStartNotSet => "protection start date not set"@,
            QlError::ClaimNotSet => "claim not set"@,
            QlError::UpfrontPaymentNotSet => "upfront payment not set"@,
            QlError::CouponsNotSet => "coupons not set"@,
            QlError::SpreadNotSet => "spread not set"@,
            QlError::NullNotional => "null notional set"@,
            QlError::NotionalNotSet => "notional not set"@,
            QlError::SideNotSet => "side not set"@,
            QlError::AmountNotProvided => "amount not provided"@,
            QlError::ValueDateNotBeforeMaturity => "valueDate must be earlier than maturityDate"@,
            QlError::LagBelowAvailabilityAndPeriod => "inconsistency between swap observation lag, interpolated index period and index availability: need (obsLag-index period) >= availLag"@,
            QlError::LagBelowAvailability => "index tries to observe inflation fixings that do not yet exist"@,
            QlError::UndecidablePeriodComparison => "undecidable comparison between periods"@,
            QlError::ImpossiblePeriodAddition => "impossible addition between periods"@,
            QlError::UnknownFrequency => "unknown frequency"@,
            QlError::NoAtmRate => "no at-the-money rate given"@,
            QlError::NoStrike => "no strike and no ATM curve given"@,
            QlError::StrikeAndAtmCurve => "explicit strike and ATM curve both given"@,
            QlError::NoCapFloorReferenceDate => "no evaluation date set: MakeYoYInflationCapFloor needs a reference date to derive the start date"@,
            QlError::NominalCountMismatch => "nominal count mismatch"@,
            QlError::SpreadCountMismatch => "spread count mismatch"@,
            QlError::GearingCountMismatch => "gearing count mismatch"@,
            QlError::FloorRateCountMismatch => "floor-rate count mismatch"@,
            QlError::CapRateCountMismatch => "cap-rate count mismatch"@,
            QlError::AccrualTimeCountMismatch => "accrual-time count mismatch"@,
            QlError::FixingDateCountMismatch => "fixing-date count mismatch"@,
            QlError::PayDateCountMismatch => "pay-date count mismatch"@,
            QlError::NoInflationIndex => "no inflation index given"@,
            QlError::CapFloorTypeNotSet => "cap/floor type not set"@,
            QlError::OptionletOutOfRange => "optionlet does not exist"@,
            QlError::CollarNeedsTwoStrikeVectors => "only Cap/Floor types allowed in this constructor"@,
            QlError::NoStrikes => "no strikes given"@,
            QlError::NoFloorRates => "no floor rates given"@,
            QlError::NoCapRates => "no cap rates given"@,
            QlError::NoCoupons => "no coupons given"@,
        }
    }
}

} // verus!
