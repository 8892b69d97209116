use vstd::prelude::*;

use crate::errors::ModelError;
use crate::text::{decimal_chars, render_decimal};

verus! {

/// A decimal magnitude, worth `mantissa / 10^scale`.
#[derive(Clone, Copy, PartialEq, Eq, Structural, Debug)]
pub struct Decimal {
    pub mantissa: u128,
    pub scale: u32,
}

/// A project-token quantity: a raw on-chain magnitude paired with the
/// decimal scale that turns it into a display value.
#[derive(Clone, Copy, PartialEq, Eq, Structural, Debug)]
pub struct SlotValue {
    pub value: u128,
    pub decimals: u32,
}

/// A monetary amount: a raw magnitude, its decimal scale, and the
/// currency symbol.
#[derive(Clone, Debug)]
pub struct Erc20 {
    pub value: u128,
    pub decimals: u32,
    pub symbol: String,
}

/// The mathematical value of a monetary amount.
pub struct Erc20View {
    pub value: u128,
    pub decimals: u32,
    pub symbol: Seq<char>,
}

impl View for Erc20 {
    type V = Erc20View;

    open spec fn view(&self) -> Erc20View {
        Erc20View { value: self.value, decimals: self.decimals, symbol: self.symbol@ }
    }
}

/// A carbon mass: a raw absorption or offset magnitude paired with the
/// equivalence factor that converts it to a physical mass unit.
#[derive(Clone, Copy, PartialEq, Eq, Structural, Debug)]
pub struct Mass {
    pub value: u128,
    pub ton_equivalent: u128,
}

/// A display-ready quantity: the decimal value, its rendered text, and
/// a currency symbol (empty for non-monetary quantities). No raw
/// on-chain integer reaches an output except through one of the
/// `from_blockchain` conversions and then this shape.
#[derive(Clone, Debug, PartialEq, Eq)]
pub struct HumanComprehensibleU256 {
    pub value: Decimal,
    pub displayable_value: String,
    pub symbol: String,
}

/// The mathematical value of a display-ready quantity.
pub struct HcView {
    pub value: Decimal,
    pub displayable_value: Seq<char>,
    pub symbol: Seq<char>,
}

impl View for HumanComprehensibleU256 {
    type V = HcView;

    open spec fn view(&self) -> HcView {
        HcView {
            value: self.value,
            displayable_value: self.displayable_value@,
            symbol: self.symbol@,
        }
    }
}

/// The display form of a raw token quantity at a decimal scale.
pub open spec fn hc_of_slot(raw: u128, decimals: u32) -> HcView {
    HcView {
        value: Decimal { mantissa: raw, scale: decimals },
        displayable_value: decimal_chars(raw as nat, decimals as nat),
        symbol: Seq::empty(),
    }
}

/// The display form of a monetary amount.
pub open spec fn hc_of_erc20(raw: u128, decimals: u32, symbol: Seq<char>) -> HcView {
    HcView {
        value: Decimal { mantissa: raw, scale: decimals },
        displayable_value: decimal_chars(raw as nat, decimals as nat),
        symbol: symbol,
    }
}

/// The mass display mantissa at six fractional digits: the raw
/// magnitude divided by the equivalence factor, rounded toward zero.
pub open spec fn mass_display_mantissa(raw: u128, ton: u128) -> nat {
    ((raw as nat) * 1000000) / (ton as nat)
}

/// The display form of a carbon mass.
pub open spec fn hc_of_mass(raw: u128, ton: u128) -> HcView {
    HcView {
        value: Decimal { mantissa: raw, scale: 0 },
        displayable_value: decimal_chars(mass_display_mantissa(raw, ton), 6),
        symbol: Seq::empty(),
    }
}

/// The display form of an already scaled decimal.
pub open spec fn hc_of_decimal(d: Decimal) -> HcView {
    HcView {
        value: d,
        displayable_value: decimal_chars(d.mantissa as nat, d.scale as nat),
        symbol: Seq::empty(),
    }
}

/// The empty display quantity.
pub open spec fn hc_empty() -> HcView {
    HcView {
        value: Decimal { mantissa: 0, scale: 0 },
        displayable_value: Seq::empty(),
        symbol: Seq::empty(),
    }
}

impl HumanComprehensibleU256 {
    /// The empty display quantity.
    pub fn empty() -> (r: Self)
        ensures
            r@ == hc_empty(),
    {
        HumanComprehensibleU256 {
            value: Decimal { mantissa: 0, scale: 0 },
            displayable_value: String::new(),
            symbol: String::new(),
        }
    }

    /// A copy with the same value.
    pub fn duplicate(&self) -> (r: Self)
        ensures
            r@ == self@,
    {
        HumanComprehensibleU256 {
            value: self.value,
            displayable_value: self.displayable_value.clone(),
            symbol: self.symbol.clone(),
        }
    }
}

impl Decimal {
    /// The display-ready form of this decimal.
    pub fn to_displayable(&self) -> (r: HumanComprehensibleU256)
        ensures
            r@ == hc_of_decimal(*self),
    {
        HumanComprehensibleU256 {
            value: *self,
            displayable_value: render_decimal(self.mantissa, self.scale),
            symbol: String::new(),
        }
    }
}

impl SlotValue {
    /// Take a raw on-chain magnitude into a scaled token quantity.
    pub fn from_blockchain(raw: u128, decimals: u32) -> (r: SlotValue)
        ensures
            r == (SlotValue { value: raw, decimals }),
    {
        SlotValue { value: raw, decimals }
    }

    /// The display-ready form of this quantity.
    pub fn to_displayable(&self) -> (r: HumanComprehensibleU256)
        ensures
            r@ == hc_of_slot(self.value, self.decimals),
    {
        HumanComprehensibleU256 {
            value: Decimal { mantissa: self.value, scale: self.decimals },
            displayable_value: render_decimal(self.value, self.decimals),
            symbol: String::new(),
        }
    }
}

impl Erc20 {
    /// Take a raw on-chain magnitude into a monetary amount.
    pub fn from_blockchain(raw: u128, decimals: u32, symbol: String) -> (r: Erc20)
        ensures
            r.value == raw,
            r.decimals == decimals,
            r.symbol@ == symbol@,
    {
        Erc20 { value: raw, decimals, symbol }
    }

    /// The display-ready form of this amount.
    pub fn to_displayable(&self) -> (r: HumanComprehensibleU256)
        ensures
            r@ == hc_of_erc20(self.value, self.decimals, self.symbol@),
    {
        HumanComprehensibleU256 {
            value: Decimal { mantissa: self.value, scale: self.decimals },
            displayable_value: render_decimal(self.value, self.decimals),
            symbol: self.symbol.clone(),
        }
    }
}

impl Mass {
    /// Take a raw on-chain magnitude into a carbon mass.
    pub fn from_blockchain(raw: u128, ton_equivalent: u128) -> (r: Mass)
        ensures
            r == (Mass { value: raw, ton_equivalent }),
    {
        Mass { value: raw, ton_equivalent }
    }

    /// The display-ready form of this mass: the raw magnitude over the
    /// equivalence factor, at six fractional digits. Fails on a zero
    /// factor, and on a magnitude too large to scale.
    pub fn to_displayable(&self) -> (r: Result<HumanComprehensibleU256, ModelError>)
        ensures
            r is Ok <==> (self.ton_equivalent != 0 && (self.value as nat) * 1000000
                <= 0xffffffffffffffffffffffffffffffff),
            r matches Ok(h) ==> h@ == hc_of_mass(self.value, self.ton_equivalent),
            self.ton_equivalent == 0 ==> r == Err::<HumanComprehensibleU256, ModelError>(
                ModelError::DivisionByZero,
            ),
            self.ton_equivalent != 0 && (self.value as nat) * 1000000
                > 0xffffffffffffffffffffffffffffffff ==> r == Err::<
                HumanComprehensibleU256,
                ModelError,
            >(ModelError::ArithmeticOverflow),
    {
        if self.ton_equivalent == 0 {
            return Err(ModelError::DivisionByZero);
        }
        if self.value > 0xffffffffffffffffffffffffffffffff / 1000000 {
            proof {
                assert((self.value as nat) * 1000000 > 0xffffffffffffffffffffffffffffffff)
                    by (nonlinear_arith)
                    requires
                        self.value > 0xffffffffffffffffffffffffffffffffu128 / 1000000,
                ;
            }
            return Err(ModelError::ArithmeticOverflow);
        }
        proof {
            assert((self.value as nat) * 1000000 <= 0xffffffffffffffffffffffffffffffff)
                by (nonlinear_arith)
                requires
                    self.value <= 0xffffffffffffffffffffffffffffffffu128 / 1000000,
            ;
        }
        let mantissa: u128 = (self.value * 1000000) / self.ton_equivalent;
        Ok(
            HumanComprehensibleU256 {
                value: Decimal { mantissa: self.value, scale: 0 },
                displayable_value: render_decimal(mantissa, 6),
                symbol: String::new(),
            },
        )
    }
}

} // verus!
