use carbonable_domain::amounts::{Decimal, Erc20, Mass, SlotValue};
use carbonable_domain::errors::ModelError;
use carbonable_domain::farming::CustomerGlobalData;

#[test]
fn slot_value_scales_raw_integer_to_display_value() {
    let one = SlotValue::from_blockchain(1_000_000, 6).to_displayable();
    assert_eq!(one.displayable_value, "1.0");
    assert_eq!(one.value, Decimal { mantissa: 1_000_000, scale: 6 });
}

#[test]
fn slot_value_scales_zero_to_zero_regardless_of_decimals() {
    assert_eq!(SlotValue::from_blockchain(0, 6).to_displayable().displayable_value, "0");
    assert_eq!(SlotValue::from_blockchain(0, 18).to_displayable().displayable_value, "0");
    assert_eq!(SlotValue::from_blockchain(0, 0).to_displayable().displayable_value, "0");
}

#[test]
fn decimal_rendering_trims_trailing_zeros_but_keeps_one_digit() {
    assert_eq!(SlotValue::from_blockchain(1_500_000, 6).to_displayable().displayable_value, "1.5");
    assert_eq!(SlotValue::from_blockchain(123, 0).to_displayable().displayable_value, "123");
    assert_eq!(SlotValue::from_blockchain(25, 3).to_displayable().displayable_value, "0.025");
    assert_eq!(
        SlotValue::from_blockchain(5_000_000_000_000_000_000, 18)
            .to_displayable()
            .displayable_value,
        "5.0"
    );
}

#[test]
fn erc20_display_carries_the_symbol() {
    let amount = Erc20::from_blockchain(2_500_000, 6, String::from("USDC")).to_displayable();
    assert_eq!(amount.displayable_value, "2.5");
    assert_eq!(amount.symbol, "USDC");
}

#[test]
fn mass_display_divides_by_the_equivalence_factor() {
    let mass = Mass::from_blockchain(5000, 1000).to_displayable().unwrap();
    assert_eq!(mass.displayable_value, "5.0");
    let fractional = Mass::from_blockchain(1500, 1000).to_displayable().unwrap();
    assert_eq!(fractional.displayable_value, "1.5");
}

#[test]
fn mass_display_reports_a_zero_factor() {
    assert_eq!(
        Mass::from_blockchain(5000, 0).to_displayable(),
        Err(ModelError::DivisionByZero)
    );
}

#[test]
fn mass_display_reports_an_unscalable_magnitude() {
    assert_eq!(
        Mass::from_blockchain(u128::MAX, 1000).to_displayable(),
        Err(ModelError::ArithmeticOverflow)
    );
}

#[test]
fn merge_sums_each_magnitude_and_keeps_scales() {
    let a = CustomerGlobalData {
        total_deposited_value: SlotValue::from_blockchain(100, 6),
        total_investment: Erc20::from_blockchain(10, 6, String::from("USDC")),
        total_yielder_claimable: Erc20::from_blockchain(1, 6, String::from("USDC")),
        total_offseter_claimable: Mass::from_blockchain(7, 1000),
    };
    let b = CustomerGlobalData {
        total_deposited_value: SlotValue::from_blockchain(23, 18),
        total_investment: Erc20::from_blockchain(5, 2, String::from("EUR")),
        total_yielder_claimable: Erc20::from_blockchain(2, 2, String::from("EUR")),
        total_offseter_claimable: Mass::from_blockchain(3, 1_000_000),
    };
    let merged = a.merge(b);
    assert_eq!(merged.total_deposited_value.value, 123);
    assert_eq!(merged.total_deposited_value.decimals, 6);
    assert_eq!(merged.total_investment.value, 15);
    assert_eq!(merged.total_investment.symbol, "USDC");
    assert_eq!(merged.total_yielder_claimable.value, 3);
    assert_eq!(merged.total_offseter_claimable.value, 10);
    assert_eq!(merged.total_offseter_claimable.ton_equivalent, 1000);
}

#[test]
fn merge_from_default_adopts_the_other_position() {
    let position = CustomerGlobalData {
        total_deposited_value: SlotValue::from_blockchain(100, 6),
        total_investment: Erc20::from_blockchain(10, 6, String::from("USDC")),
        total_yielder_claimable: Erc20::from_blockchain(1, 6, String::from("USDC")),
        total_offseter_claimable: Mass::from_blockchain(7, 1000),
    };
    let merged = CustomerGlobalData::default().merge(position);
    assert_eq!(merged.total_deposited_value, SlotValue::from_blockchain(100, 6));
    assert_eq!(merged.total_investment.value, 10);
    assert_eq!(merged.total_investment.decimals, 6);
    assert_eq!(merged.total_investment.symbol, "USDC");
    assert_eq!(merged.total_yielder_claimable.value, 1);
    assert_eq!(merged.total_yielder_claimable.symbol, "USDC");
    assert_eq!(merged.total_offseter_claimable, Mass::from_blockchain(7, 1000));
}

#[test]
fn merge_into_default_keeps_the_position() {
    let position = CustomerGlobalData {
        total_deposited_value: SlotValue::from_blockchain(100, 6),
        total_investment: Erc20::from_blockchain(10, 6, String::from("USDC")),
        total_yielder_claimable: Erc20::from_blockchain(1, 6, String::from("USDC")),
        total_offseter_claimable: Mass::from_blockchain(7, 1000),
    };
    let merged = position.merge(CustomerGlobalData::default());
    assert_eq!(merged.total_deposited_value, SlotValue::from_blockchain(100, 6));
    assert_eq!(merged.total_investment.value, 10);
    assert_eq!(merged.total_investment.decimals, 6);
    assert_eq!(merged.total_investment.symbol, "USDC");
    assert_eq!(merged.total_offseter_claimable, Mass::from_blockchain(7, 1000));
}

#[test]
fn global_data_default_is_all_zero() {
    let d = CustomerGlobalData::default();
    assert_eq!(d.total_deposited_value.value, 0);
    assert_eq!(d.total_investment.value, 0);
    assert_eq!(d.total_yielder_claimable.value, 0);
    assert_eq!(d.total_offseter_claimable.value, 0);
}

#[test]
fn decimal_to_displayable_renders_the_mantissa_at_its_scale() {
    let d = Decimal { mantissa: 2_750_000, scale: 6 };
    assert_eq!(d.to_displayable().displayable_value, "2.75");
    let whole = Decimal { mantissa: 42, scale: 0 };
    assert_eq!(whole.to_displayable().displayable_value, "42");
}
