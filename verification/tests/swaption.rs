use libitofin::instruments::swaption::SettlementMethod::{
    CollateralizedCashPrice, ParYieldCurve, PhysicalCleared, PhysicalOTC,
};
use libitofin::instruments::swaption::SettlementType::{Cash, Physical};
use libitofin::instruments::swaption::{
    check_type_and_method_consistency, SettlementMethod, SettlementType,
};

#[test]
fn consistency_accepts_matching_pairs_and_rejects_the_rest() {
    assert!(check_type_and_method_consistency(Physical, PhysicalOTC).is_ok());
    assert!(check_type_and_method_consistency(Physical, PhysicalCleared).is_ok());
    assert!(check_type_and_method_consistency(Cash, CollateralizedCashPrice).is_ok());
    assert!(check_type_and_method_consistency(Cash, ParYieldCurve).is_ok());

    assert_eq!(
        check_type_and_method_consistency(Physical, CollateralizedCashPrice)
            .unwrap_err()
            .message(),
        "invalid settlement method for physical settlement"
    );
    assert!(check_type_and_method_consistency(Physical, ParYieldCurve).is_err());
    assert_eq!(
        check_type_and_method_consistency(Cash, PhysicalOTC)
            .unwrap_err()
            .message(),
        "invalid settlement method for cash settlement"
    );
    assert!(check_type_and_method_consistency(Cash, PhysicalCleared).is_err());
}

#[test]
fn settlement_defaults_are_physical_over_the_counter() {
    assert_eq!(SettlementType::default(), SettlementType::Physical);
    assert_eq!(SettlementMethod::default(), SettlementMethod::PhysicalOTC);
}
