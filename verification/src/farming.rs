use vstd::prelude::*;

use crate::amounts::{
    hc_empty, hc_of_decimal, hc_of_erc20, hc_of_mass, hc_of_slot, Decimal, Erc20,
    HumanComprehensibleU256, Mass, SlotValue,
};
use crate::errors::{DecodeError, ModelError};
use crate::felt::{be_val, Felt};

verus! {

/// A project resource record: location and content of its metadata
/// document. The content is carried as raw structured text.
#[derive(Debug)]
pub struct UriViewModel {
    pub uri: String,
    pub address: String,
    pub data: String,
}

/// One farming project row, as the persistence layer hands it over.
#[derive(Debug)]
pub struct FarmingProjectsViewModel {
    pub id: u128,
    pub address: String,
    pub name: String,
    pub slug: String,
    pub uri: UriViewModel,
}

/// Persisted per-project configuration used by the aggregation stage:
/// decimal scales, symbols, the mass-equivalence factor and contract
/// addresses. Treated as already validated input.
#[derive(Debug)]
pub struct CustomerGlobalDataForComputation {
    pub id: u128,
    pub unit_price: u128,
    pub payment_decimals: u32,
    pub payment_symbol: String,
    pub project_slot: u128,
    pub project_address: String,
    pub value_decimals: u32,
    pub ton_equivalent: u128,
    pub yielder_address: String,
    pub offseter_address: String,
    pub slot: u128,
    pub project_value: u128,
}

/// A customer's global position, summed over projects.
#[derive(Debug)]
pub struct CustomerGlobalData {
    pub total_deposited_value: SlotValue,
    pub total_investment: Erc20,
    pub total_yielder_claimable: Erc20,
    pub total_offseter_claimable: Mass,
}

impl Default for CustomerGlobalData {
    /// The empty position: every magnitude zero, every scale zero.
    fn default() -> (r: Self)
        ensures
            r.total_deposited_value == (SlotValue { value: 0, decimals: 0 }),
            r.total_investment@.value == 0 && r.total_investment@.decimals == 0
                && r.total_investment@.symbol == Seq::<char>::empty(),
            r.total_yielder_claimable@.value == 0 && r.total_yielder_claimable@.decimals == 0
                && r.total_yielder_claimable@.symbol == Seq::<char>::empty(),
            r.total_offseter_claimable == (Mass { value: 0, ton_equivalent: 0 }),
    {
        CustomerGlobalData {
            total_deposited_value: SlotValue { value: 0, decimals: 0 },
            total_investment: Erc20 { value: 0, decimals: 0, symbol: String::new() },
            total_yielder_claimable: Erc20 { value: 0, decimals: 0, symbol: String::new() },
            total_offseter_claimable: Mass { value: 0, ton_equivalent: 0 },
        }
    }
}

/// Whether a token quantity is the zero default: no magnitude and no
/// scale yet.
pub open spec fn slot_is_default(v: SlotValue) -> bool {
    v.value == 0 && v.decimals == 0
}

/// Whether a monetary amount is the zero default: no magnitude, no
/// scale and no symbol yet.
pub open spec fn erc20_is_default(v: &Erc20) -> bool {
    v.value == 0 && v.decimals == 0 && v.symbol@.len() == 0
}

/// Whether a mass is the zero default: no magnitude and no
/// equivalence factor yet.
pub open spec fn mass_is_default(v: Mass) -> bool {
    v.value == 0 && v.ton_equivalent == 0
}

impl CustomerGlobalData {
    /// Combine two positions by summing each magnitude. Scales,
    /// symbols and equivalence factors are kept from `self`, except
    /// that a field still holding the zero default adopts the other
    /// side's: the default position is then an identity of `merge` on
    /// both sides, so a fold over projects may start from it.
    pub fn merge(self, other: Self) -> (r: Self)
        requires
            self.total_deposited_value.value + other.total_deposited_value.value <= u128::MAX,
            self.total_investment.value + other.total_investment.value <= u128::MAX,
            self.total_yielder_claimable.value + other.total_yielder_claimable.value <= u128::MAX,
            self.total_offseter_claimable.value + other.total_offseter_claimable.value
                <= u128::MAX,
        ensures
            r.total_deposited_value.value == self.total_deposited_value.value
                + other.total_deposited_value.value,
            r.total_deposited_value.decimals == (if slot_is_default(self.total_deposited_value) {
                other.total_deposited_value.decimals
            } else {
                self.total_deposited_value.decimals
            }),
            r.total_investment@.value == self.total_investment@.value
                + other.total_investment@.value,
            r.total_investment@.decimals == (if erc20_is_default(&self.total_investment) {
                other.total_investment@.decimals
            } else {
                self.total_investment@.decimals
            }),
            r.total_investment@.symbol == (if erc20_is_default(&self.total_investment) {
                other.total_investment@.symbol
            } else {
                self.total_investment@.symbol
            }),
            r.total_yielder_claimable@.value == self.total_yielder_claimable@.value
                + other.total_yielder_claimable@.value,
            r.total_yielder_claimable@.decimals == (if erc20_is_default(
                &self.total_yielder_claimable,
            ) {
                other.total_yielder_claimable@.decimals
            } else {
                self.total_yielder_claimable@.decimals
            }),
            r.total_yielder_claimable@.symbol == (if erc20_is_default(
                &self.total_yielder_claimable,
            ) {
                other.total_yielder_claimable@.symbol
            } else {
                self.total_yielder_claimable@.symbol
            }),
            r.total_offseter_claimable.value == self.total_offseter_claimable.value
                + other.total_offseter_claimable.value,
            r.total_offseter_claimable.ton_equivalent == (if mass_is_default(
                self.total_offseter_claimable,
            ) {
                other.total_offseter_claimable.ton_equivalent
            } else {
                self.total_offseter_claimable.ton_equivalent
            }),
    {
        let deposited_decimals: u32 = if self.total_deposited_value.value == 0
            && self.total_deposited_value.decimals == 0 {
            other.total_deposited_value.decimals
        } else {
            self.total_deposited_value.decimals
        };
        let investment_default: bool = self.total_investment.value == 0
            && self.total_investment.decimals == 0
            && self.total_investment.symbol.as_str().is_empty();
        let (investment_decimals, investment_symbol): (u32, String) = if investment_default {
            (other.total_investment.decimals, other.total_investment.symbol)
        } else {
            (self.total_investment.decimals, self.total_investment.symbol)
        };
        let yielder_default: bool = self.total_yielder_claimable.value == 0
            && self.total_yielder_claimable.decimals == 0
            && self.total_yielder_claimable.symbol.as_str().is_empty();
        let (yielder_decimals, yielder_symbol): (u32, String) = if yielder_default {
            (other.total_yielder_claimable.decimals, other.total_yielder_claimable.symbol)
        } else {
            (self.total_yielder_claimable.decimals, self.total_yielder_claimable.symbol)
        };
        let offseter_ton: u128 = if self.total_offseter_claimable.value == 0
            && self.total_offseter_claimable.ton_equivalent == 0 {
            other.total_offseter_claimable.ton_equivalent
        } else {
            self.total_offseter_claimable.ton_equivalent
        };
        CustomerGlobalData {
            total_deposited_value: SlotValue {
                value: self.total_deposited_value.value + other.total_deposited_value.value,
                decimals: deposited_decimals,
            },
            total_investment: Erc20 {
                value: self.total_investment.value + other.total_investment.value,
                decimals: investment_decimals,
                symbol: investment_symbol,
            },
            total_yielder_claimable: Erc20 {
                value: self.total_yielder_claimable.value + other.total_yielder_claimable.value,
                decimals: yielder_decimals,
                symbol: yielder_symbol,
            },
            total_offseter_claimable: Mass {
                value: self.total_offseter_claimable.value + other.total_offseter_claimable.value,
                ton_equivalent: offseter_ton,
            },
        }
    }

    /// The display-ready form of this position.
    pub fn to_displayable(&self) -> (r: Result<DisplayableCustomerGlobalData, ModelError>)
        ensures
            r is Ok <==> (self.total_offseter_claimable.ton_equivalent != 0
                && (self.total_offseter_claimable.value as nat) * 1000000
                <= 0xffffffffffffffffffffffffffffffff),
            r matches Ok(d) ==> {
                &&& d.total_deposited_value@ == hc_of_slot(
                    self.total_deposited_value.value,
                    self.total_deposited_value.decimals,
                )
                &&& d.total_investment@ == hc_of_erc20(
                    self.total_investment@.value,
                    self.total_investment@.decimals,
                    self.total_investment@.symbol,
                )
                &&& d.total_yielder_claimable@ == hc_of_erc20(
                    self.total_yielder_claimable@.value,
                    self.total_yielder_claimable@.decimals,
                    self.total_yielder_claimable@.symbol,
                )
                &&& d.total_offseter_claimable@ == hc_of_mass(
                    self.total_offseter_claimable.value,
                    self.total_offseter_claimable.ton_equivalent,
                )
            },
    {
        let total_offseter_claimable = match self.total_offseter_claimable.to_displayable() {
            Ok(h) => h,
            Err(e) => {
                return Err(e);
            },
        };
        Ok(
            DisplayableCustomerGlobalData {
                total_deposited_value: self.total_deposited_value.to_displayable(),
                total_investment: self.total_investment.to_displayable(),
                total_yielder_claimable: self.total_yielder_claimable.to_displayable(),
                total_offseter_claimable,
            },
        )
    }
}

/// A customer's global position, display ready.
#[derive(Debug)]
pub struct DisplayableCustomerGlobalData {
    pub total_deposited_value: HumanComprehensibleU256,
    pub total_investment: HumanComprehensibleU256,
    pub total_yielder_claimable: HumanComprehensibleU256,
    pub total_offseter_claimable: HumanComprehensibleU256,
}

/// Full persisted configuration of one farming project: absorption
/// curve, scales, symbols, contract addresses and their interface
/// documents (carried as raw structured text).
#[derive(Debug)]
pub struct CompleteFarmingData {
    pub id: u128,
    pub address: String,
    pub times: Vec<i64>,
    pub absorptions: Vec<u128>,
    pub ton_equivalent: u128,
    pub value_decimals: u32,
    pub payment_decimals: u32,
    pub payment_symbol: String,
    pub payment_address: Option<String>,
    pub offseter_address: Option<String>,
    pub yielder_id: Option<u128>,
    pub yielder_address: Option<String>,
    pub minter_id: Option<u128>,
    pub total_value: Option<u128>,
    pub project_abi: Option<String>,
    pub minter_abi: Option<String>,
    pub offseter_abi: Option<String>,
    pub yielder_abi: Option<String>,
    pub payment_abi: Option<String>,
}

/// The final planned absorption of a project: the last entry of its
/// absorption curve, or zero for an empty curve.
pub open spec fn spec_final_absorption(d: &CompleteFarmingData) -> u128 {
    if d.absorptions@.len() == 0 {
        0
    } else {
        d.absorptions@.last()
    }
}

impl CompleteFarmingData {
    /// The last entry of the absorption curve, or zero when the curve
    /// is empty.
    pub fn final_absorption(&self) -> (r: u128)
        ensures
            r == spec_final_absorption(self),
    {
        if self.absorptions.len() == 0 {
            0
        } else {
            self.absorptions[self.absorptions.len() - 1]
        }
    }
}

/// Annual-return figure of a project: a decimal, or not applicable.
#[derive(Clone, Copy, PartialEq, Eq, Structural, Debug)]
pub enum ProjectApr {
    /// No figure was computed; rendered as the literal `n/a`.
    NotAvailable,
    Value(Decimal),
}

/// Lifecycle status of a project.
#[derive(Clone, Copy, PartialEq, Eq, Structural, Debug)]
pub enum ProjectStatus {
    Upcoming,
    Ended,
    Live,
}

/// Public-facing per-project figures for a visitor with no wallet.
#[derive(Debug)]
pub struct UnconnectedFarmingData {
    pub apr: ProjectApr,
    pub status: ProjectStatus,
    pub tvl: HumanComprehensibleU256,
    pub total_removal: HumanComprehensibleU256,
}

/// The contract addresses and interface documents a client needs to
/// talk to one project.
#[derive(Debug)]
pub struct ContractsList {
    pub yielder: String,
    pub yielder_abi: String,
    pub offseter: String,
    pub offseter_abi: String,
    pub project: String,
    pub project_abi: String,
    pub payment: String,
    pub payment_abi: String,
}

/// Two contract lists hold the same text in every field.
pub open spec fn contracts_eq(a: &ContractsList, b: &ContractsList) -> bool {
    &&& a.yielder@ == b.yielder@
    &&& a.yielder_abi@ == b.yielder_abi@
    &&& a.offseter@ == b.offseter@
    &&& a.offseter_abi@ == b.offseter_abi@
    &&& a.project@ == b.project@
    &&& a.project_abi@ == b.project_abi@
    &&& a.payment@ == b.payment@
    &&& a.payment_abi@ == b.payment_abi@
}

/// One persisted customer token holding: wallet, project, slot, token
/// and its raw unscaled value.
#[derive(Debug)]
pub struct CustomerToken {
    pub wallet: String,
    pub project_address: String,
    pub slot: u128,
    pub token_id: u128,
    pub value: u128,
}

/// A customer token holding with its value scaled for display.
#[derive(Debug)]
pub struct CustomerTokenWithSlotValue {
    pub wallet: String,
    pub project_address: String,
    pub slot: u128,
    pub token_id: u128,
    pub value: SlotValue,
}

/// The text of an optional string, empty when absent.
pub open spec fn opt_text(o: Option<String>) -> Seq<char> {
    match o {
        Some(s) => s@,
        None => Seq::empty(),
    }
}

/// Copy an optional string, defaulting to empty text.
pub fn opt_string(o: &Option<String>) -> (r: String)
    ensures
        r@ == opt_text(*o),
{
    match o {
        Some(s) => s.clone(),
        None => String::new(),
    }
}

/// The 64-bit value a raw response decodes to under the `u256` rule:
/// the first scalar, narrowed — absent when the response is empty or
/// the scalar does not fit.
pub open spec fn u256_of(felts: Seq<Felt>) -> Option<u64> {
    if felts.len() == 0 {
        Option::None
    } else if be_val(felts.first()@) >= 0x10000000000000000 {
        Option::None
    } else {
        Option::Some(be_val(felts.first()@) as u64)
    }
}

/// The decode error a raw response yields under the `u256` rule when
/// it has no 64-bit value.
pub open spec fn u256_err(felts: Seq<Felt>) -> ModelError {
    if felts.len() == 0 {
        ModelError::Decode(DecodeError::Underflow)
    } else {
        ModelError::Decode(DecodeError::Overflow)
    }
}

/// Decode one raw response under the `u256` rule.
fn decode_u256(felts: &Vec<Felt>) -> (r: Result<u64, ModelError>)
    requires
        forall|i: int| 0 <= i < felts@.len() ==> (#[trigger] felts@[i]).wf(),
    ensures
        r matches Ok(v) ==> u256_of(felts@) == Option::Some(v),
        r is Err <==> u256_of(felts@) is None,
        r matches Err(e) ==> e == u256_err(felts@),
{
    if felts.len() == 0 {
        return Err(ModelError::Decode(DecodeError::Underflow));
    }
    match felts[0].to_u64() {
        Ok(v) => Ok(v),
        Err(e) => Err(ModelError::Decode(e)),
    }
}

/// A compact per-project listing row for one customer, fully scaled.
#[derive(Debug)]
pub struct CustomerListingProjectData {
    pub customer_stake: HumanComprehensibleU256,
    pub customer_investment: HumanComprehensibleU256,
    pub payment_decimals: u32,
    pub ton_equivalent: u128,
    pub vesting_to_claim: HumanComprehensibleU256,
    pub absorption_to_claim: HumanComprehensibleU256,
    pub undeposited: HumanComprehensibleU256,
    pub min_to_claim: HumanComprehensibleU256,
    pub contracts: ContractsList,
}

/// When the listing builder succeeds: five responses, each decoding
/// under the `u256` rule, a nonzero mass-equivalence factor, and a
/// stake-times-price product in range.
pub open spec fn listing_ok(resp: Seq<Vec<Felt>>, ton: u128, unit_price: u128) -> bool {
    &&& resp.len() == 5
    &&& forall|i: int| 0 <= i < 5 ==> u256_of(#[trigger] resp[i]@) is Some
    &&& {
        let tv = (u256_of(resp[2]@).unwrap() + u256_of(resp[3]@).unwrap()) as nat;
        tv * unit_price <= 0xffffffffffffffffffffffffffffffff
    }
    &&& ton != 0
}

/// The error the listing builder reports, in the order the inputs are
/// checked.
pub open spec fn listing_err(resp: Seq<Vec<Felt>>, ton: u128, unit_price: u128) -> ModelError {
    if resp.len() != 5 {
        ModelError::WrongResponseCount
    } else if u256_of(resp[0]@) is None {
        u256_err(resp[0]@)
    } else if u256_of(resp[1]@) is None {
        u256_err(resp[1]@)
    } else if u256_of(resp[2]@) is None {
        u256_err(resp[2]@)
    } else if u256_of(resp[3]@) is None {
        u256_err(resp[3]@)
    } else if u256_of(resp[4]@) is None {
        u256_err(resp[4]@)
    } else if ((u256_of(resp[2]@).unwrap() + u256_of(resp[3]@).unwrap()) as nat) * unit_price
        > 0xffffffffffffffffffffffffffffffff {
        ModelError::ArithmeticOverflow
    } else {
        ModelError::DivisionByZero
    }
}

/// What the listing fields hold on success: every quantity scaled by
/// the scale that belongs to it, and the contracts copied with absent
/// fields defaulted to empty.
pub open spec fn listing_fields(
    out: &CustomerListingProjectData,
    resp: Seq<Vec<Felt>>,
    project_data: &CustomerGlobalDataForComputation,
    farming_data: &CompleteFarmingData,
    value_of: u128,
) -> bool {
    let yielder_claimable = u256_of(resp[0]@).unwrap();
    let offseter_claimable = u256_of(resp[1]@).unwrap();
    let yielder_deposited = u256_of(resp[2]@).unwrap();
    let offseter_deposited = u256_of(resp[3]@).unwrap();
    let min_claimable = u256_of(resp[4]@).unwrap();
    let tv = (yielder_deposited + offseter_deposited) as u128;
    &&& out.customer_stake@ == hc_of_slot(tv, farming_data.value_decimals)
    &&& out.customer_investment@ == hc_of_erc20(
        (tv * project_data.unit_price) as u128,
        farming_data.payment_decimals,
        farming_data.payment_symbol@,
    )
    &&& out.payment_decimals == project_data.payment_decimals
    &&& out.ton_equivalent == farming_data.ton_equivalent
    &&& out.vesting_to_claim@ == hc_of_erc20(
        yielder_claimable as u128,
        farming_data.payment_decimals,
        farming_data.payment_symbol@,
    )
    &&& out.absorption_to_claim@ == hc_of_mass(
        offseter_claimable as u128,
        farming_data.ton_equivalent,
    )
    &&& out.undeposited@ == hc_of_slot(value_of, farming_data.value_decimals)
    &&& out.min_to_claim@ == hc_of_mass(min_claimable as u128, farming_data.ton_equivalent)
    &&& out.contracts.yielder@ == opt_text(farming_data.yielder_address)
    &&& out.contracts.yielder_abi@ == opt_text(farming_data.yielder_abi)
    &&& out.contracts.offseter@ == opt_text(farming_data.offseter_address)
    &&& out.contracts.offseter_abi@ == opt_text(farming_data.offseter_abi)
    &&& out.contracts.project@ == farming_data.address@
    &&& out.contracts.project_abi@ == opt_text(farming_data.project_abi)
    &&& out.contracts.payment@ == opt_text(farming_data.payment_address)
    &&& out.contracts.payment_abi@ == opt_text(farming_data.payment_abi)
}

impl CustomerListingProjectData {
    /// Build one listing row from the five raw responses of the fixed
    /// per-project queries (claimable yield, claimable mass, yielder
    /// deposit, offseter deposit, minimum claimable mass), persisted
    /// metadata, and the customer's un-deposited raw balance. Any
    /// malformed input is fatal: no partial row is returned.
    pub fn from_blockchain_data(
        blockchain_response: &Vec<Vec<Felt>>,
        project_data: &CustomerGlobalDataForComputation,
        farming_data: &CompleteFarmingData,
        value_of: u128,
    ) -> (r: Result<CustomerListingProjectData, ModelError>)
        requires
            forall|i: int, j: int|
                0 <= i < blockchain_response@.len() && 0 <= j < blockchain_response@[i]@.len()
                    ==> (#[trigger] blockchain_response@[i]@[j]).wf(),
        ensures
            r is Ok <==> listing_ok(
                blockchain_response@,
                farming_data.ton_equivalent,
                project_data.unit_price,
            ),
            r matches Err(e) ==> e == listing_err(
                blockchain_response@,
                farming_data.ton_equivalent,
                project_data.unit_price,
            ),
            r matches Ok(out) ==> listing_fields(
                &out,
                blockchain_response@,
                project_data,
                farming_data,
                value_of,
            ),
    {
        if blockchain_response.len() != 5 {
            return Err(ModelError::WrongResponseCount);
        }
        let yielder_claimable = match decode_u256(&blockchain_response[0]) {
            Ok(v) => v,
            Err(e) => {
                return Err(e);
            },
        };
        let offseter_claimable = match decode_u256(&blockchain_response[1]) {
            Ok(v) => v,
            Err(e) => {
                return Err(e);
            },
        };
        let yielder_deposited = match decode_u256(&blockchain_response[2]) {
            Ok(v) => v,
            Err(e) => {
                return Err(e);
            },
        };
        let offseter_deposited = match decode_u256(&blockchain_response[3]) {
            Ok(v) => v,
            Err(e) => {
                return Err(e);
            },
        };
        let min_claimable = match decode_u256(&blockchain_response[4]) {
            Ok(v) => v,
            Err(e) => {
                return Err(e);
            },
        };
        let total_value: u128 = yielder_deposited as u128 + offseter_deposited as u128;
        let up: u128 = project_data.unit_price;
        if up != 0 && total_value > u128::MAX / up {
            proof {
                assert((total_value as nat) * up > 0xffffffffffffffffffffffffffffffff)
                    by (nonlinear_arith)
                    requires
                        up != 0,
                        total_value > 0xffffffffffffffffffffffffffffffffu128 / up,
                ;
            }
            return Err(ModelError::ArithmeticOverflow);
        }
        proof {
            if up != 0 {
                assert((total_value as nat) * up <= 0xffffffffffffffffffffffffffffffff)
                    by (nonlinear_arith)
                    requires
                        up != 0,
                        total_value <= 0xffffffffffffffffffffffffffffffffu128 / up,
                ;
            }
        }
        if farming_data.ton_equivalent == 0 {
            return Err(ModelError::DivisionByZero);
        }
        let absorption_to_claim = match Mass::from_blockchain(
            offseter_claimable as u128,
            farming_data.ton_equivalent,
        ).to_displayable() {
            Ok(h) => h,
            Err(_) => {
                proof {
                    assert(false);
                }
                return Err(ModelError::ArithmeticOverflow);
            },
        };
        let min_to_claim = match Mass::from_blockchain(
            min_claimable as u128,
            farming_data.ton_equivalent,
        ).to_displayable() {
            Ok(h) => h,
            Err(_) => {
                proof {
                    assert(false);
                }
                return Err(ModelError::ArithmeticOverflow);
            },
        };
        Ok(
            CustomerListingProjectData {
                customer_stake: SlotValue::from_blockchain(
                    total_value,
                    farming_data.value_decimals,
                ).to_displayable(),
                customer_investment: Erc20::from_blockchain(
                    total_value * up,
                    farming_data.payment_decimals,
                    farming_data.payment_symbol.clone(),
                ).to_displayable(),
                payment_decimals: project_data.payment_decimals,
                ton_equivalent: farming_data.ton_equivalent,
                vesting_to_claim: Erc20::from_blockchain(
                    yielder_claimable as u128,
                    farming_data.payment_decimals,
                    farming_data.payment_symbol.clone(),
                ).to_displayable(),
                absorption_to_claim,
                undeposited: SlotValue::from_blockchain(
                    value_of,
                    farming_data.value_decimals,
                ).to_displayable(),
                min_to_claim,
                contracts: ContractsList {
                    yielder: opt_string(&farming_data.yielder_address),
                    yielder_abi: opt_string(&farming_data.yielder_abi),
                    offseter: opt_string(&farming_data.offseter_address),
                    offseter_abi: opt_string(&farming_data.offseter_abi),
                    project: farming_data.address.clone(),
                    project_abi: opt_string(&farming_data.project_abi),
                    payment: opt_string(&farming_data.payment_address),
                    payment_abi: opt_string(&farming_data.payment_abi),
                },
            },
        )
    }
}

/// Headline figures of one project for one customer.
#[derive(Debug)]
pub struct Overview {
    pub total_removal: HumanComprehensibleU256,
    pub tvl: HumanComprehensibleU256,
    pub apr: ProjectApr,
    pub total_yielded: HumanComprehensibleU256,
    pub total_offseted: HumanComprehensibleU256,
}

/// Available and total amounts of one reward pool.
#[derive(Debug)]
pub struct PoolLiquidity {
    pub total: HumanComprehensibleU256,
    pub available: HumanComprehensibleU256,
}

/// Carbon-credit figures of one project for one customer.
#[derive(Debug)]
pub struct CarbonCredits {
    pub generated_credits: HumanComprehensibleU256,
    pub to_be_generated: HumanComprehensibleU256,
    pub yield_pool: PoolLiquidity,
    pub offset: PoolLiquidity,
    pub min_to_claim: HumanComprehensibleU256,
}

/// How the customer's holding in one project is split up.
#[derive(Debug)]
pub struct Allocation {
    pub total: HumanComprehensibleU256,
    pub yield_pool: HumanComprehensibleU256,
    pub offseted: HumanComprehensibleU256,
    pub undeposited: HumanComprehensibleU256,
    pub tokens: Vec<CustomerTokenWithSlotValue>,
}

/// The full per-project customer detail view: a mutable accumulator
/// advanced through `with_contracts`, `with_apr` and
/// `compute_blockchain_data`, then finalized by `build` into an
/// immutable snapshot.
#[derive(Debug)]
pub struct CustomerDetailsProjectData {
    pub overview: Overview,
    pub carbon_credits: CarbonCredits,
    pub allocation: Allocation,
    pub contracts: ContractsList,
    pub payment_decimals: u32,
    pub ton_equivalent: u128,
    pub unit_price: HumanComprehensibleU256,
}

pub open spec fn overview_eq(a: &Overview, b: &Overview) -> bool {
    &&& a.total_removal@ == b.total_removal@
    &&& a.tvl@ == b.tvl@
    &&& a.apr == b.apr
    &&& a.total_yielded@ == b.total_yielded@
    &&& a.total_offseted@ == b.total_offseted@
}

pub open spec fn pool_eq(a: &PoolLiquidity, b: &PoolLiquidity) -> bool {
    a.total@ == b.total@ && a.available@ == b.available@
}

pub open spec fn credits_eq(a: &CarbonCredits, b: &CarbonCredits) -> bool {
    &&& a.generated_credits@ == b.generated_credits@
    &&& a.to_be_generated@ == b.to_be_generated@
    &&& pool_eq(&a.yield_pool, &b.yield_pool)
    &&& pool_eq(&a.offset, &b.offset)
    &&& a.min_to_claim@ == b.min_to_claim@
}

pub open spec fn token_eq(a: &CustomerTokenWithSlotValue, b: &CustomerTokenWithSlotValue) -> bool {
    &&& a.wallet@ == b.wallet@
    &&& a.project_address@ == b.project_address@
    &&& a.slot == b.slot
    &&& a.token_id == b.token_id
    &&& a.value == b.value
}

pub open spec fn allocation_eq(a: &Allocation, b: &Allocation) -> bool {
    &&& a.total@ == b.total@
    &&& a.yield_pool@ == b.yield_pool@
    &&& a.offseted@ == b.offseted@
    &&& a.undeposited@ == b.undeposited@
    &&& a.tokens@.len() == b.tokens@.len()
    &&& forall|i: int|
        0 <= i < a.tokens@.len() ==> token_eq(&a.tokens@[i], &#[trigger] b.tokens@[i])
}

/// Two detail views hold the same values in every field.
pub open spec fn details_eq(a: &CustomerDetailsProjectData, b: &CustomerDetailsProjectData) -> bool {
    &&& overview_eq(&a.overview, &b.overview)
    &&& credits_eq(&a.carbon_credits, &b.carbon_credits)
    &&& allocation_eq(&a.allocation, &b.allocation)
    &&& contracts_eq(&a.contracts, &b.contracts)
    &&& a.payment_decimals == b.payment_decimals
    &&& a.ton_equivalent == b.ton_equivalent
    &&& a.unit_price@ == b.unit_price@
}

/// A freshly made detail view: every quantity empty, no annual return,
/// no contracts, no tokens.
pub open spec fn details_empty(d: &CustomerDetailsProjectData) -> bool {
    &&& d.overview.total_removal@ == hc_empty()
    &&& d.overview.tvl@ == hc_empty()
    &&& d.overview.apr == ProjectApr::NotAvailable
    &&& d.overview.total_yielded@ == hc_empty()
    &&& d.overview.total_offseted@ == hc_empty()
    &&& d.carbon_credits.generated_credits@ == hc_empty()
    &&& d.carbon_credits.to_be_generated@ == hc_empty()
    &&& d.carbon_credits.yield_pool.total@ == hc_empty()
    &&& d.carbon_credits.yield_pool.available@ == hc_empty()
    &&& d.carbon_credits.offset.total@ == hc_empty()
    &&& d.carbon_credits.offset.available@ == hc_empty()
    &&& d.carbon_credits.min_to_claim@ == hc_empty()
    &&& d.allocation.total@ == hc_empty()
    &&& d.allocation.yield_pool@ == hc_empty()
    &&& d.allocation.offseted@ == hc_empty()
    &&& d.allocation.undeposited@ == hc_empty()
    &&& d.allocation.tokens@.len() == 0
    &&& d.contracts.yielder@ == Seq::<char>::empty()
    &&& d.contracts.yielder_abi@ == Seq::<char>::empty()
    &&& d.contracts.offseter@ == Seq::<char>::empty()
    &&& d.contracts.offseter_abi@ == Seq::<char>::empty()
    &&& d.contracts.project@ == Seq::<char>::empty()
    &&& d.contracts.project_abi@ == Seq::<char>::empty()
    &&& d.contracts.payment@ == Seq::<char>::empty()
    &&& d.contracts.payment_abi@ == Seq::<char>::empty()
    &&& d.payment_decimals == 0
    &&& d.ton_equivalent == 0
    &&& d.unit_price@ == hc_empty()
}

/// When the blockchain-data stage succeeds: ten responses, each
/// decoding under the `u256` rule, nonzero mass-equivalence factor and
/// project value, an absorption curve not below the current
/// absorption, and every intermediate product in range.
pub open spec fn details_ok(
    data: Seq<Vec<Felt>>,
    project: &CompleteFarmingData,
    farming_data: &CustomerGlobalDataForComputation,
    value_of: u128,
) -> bool {
    &&& data.len() == 10
    &&& (forall|i: int| 0 <= i < 10 ==> u256_of(#[trigger] data[i]@) is Some)
    &&& project.ton_equivalent != 0
    &&& farming_data.project_value != 0
    &&& {
        let ca = u256_of(data[0]@).unwrap() as nat;
        let od_of = u256_of(data[1]@).unwrap() as nat;
        let yd_of = u256_of(data[2]@).unwrap() as nat;
        let otd = u256_of(data[7]@).unwrap() as nat;
        let ytd = u256_of(data[8]@).unwrap() as nat;
        let share = od_of + yd_of + value_of;
        let fa = spec_final_absorption(project) as nat;
        &&& (farming_data.unit_price as nat) * (otd + ytd)
            <= 0xffffffffffffffffffffffffffffffff
        &&& share <= 0xffffffffffffffffffffffffffffffff
        &&& ca * share <= 0xffffffffffffffffffffffffffffffff
        &&& ca * share * 1000000 <= 0xffffffffffffffffffffffffffffffff
        &&& fa >= ca
        &&& (fa - ca) * share <= 0xffffffffffffffffffffffffffffffff
        &&& (fa - ca) * share * 1000000 <= 0xffffffffffffffffffffffffffffffff
    }
}

/// The error the blockchain-data stage reports, in the order the
/// inputs are checked.
pub open spec fn details_err(
    data: Seq<Vec<Felt>>,
    project: &CompleteFarmingData,
    farming_data: &CustomerGlobalDataForComputation,
    value_of: u128,
) -> ModelError {
    if data.len() != 10 {
        ModelError::WrongResponseCount
    } else if u256_of(data[0]@) is None {
        u256_err(data[0]@)
    } else if u256_of(data[1]@) is None {
        u256_err(data[1]@)
    } else if u256_of(data[2]@) is None {
        u256_err(data[2]@)
    } else if u256_of(data[3]@) is None {
        u256_err(data[3]@)
    } else if u256_of(data[4]@) is None {
        u256_err(data[4]@)
    } else if u256_of(data[5]@) is None {
        u256_err(data[5]@)
    } else if u256_of(data[6]@) is None {
        u256_err(data[6]@)
    } else if u256_of(data[7]@) is None {
        u256_err(data[7]@)
    } else if u256_of(data[8]@) is None {
        u256_err(data[8]@)
    } else if u256_of(data[9]@) is None {
        u256_err(data[9]@)
    } else if project.ton_equivalent == 0 {
        ModelError::DivisionByZero
    } else if farming_data.project_value == 0 {
        ModelError::DivisionByZero
    } else {
        let ca = u256_of(data[0]@).unwrap() as nat;
        let od_of = u256_of(data[1]@).unwrap() as nat;
        let yd_of = u256_of(data[2]@).unwrap() as nat;
        let otd = u256_of(data[7]@).unwrap() as nat;
        let ytd = u256_of(data[8]@).unwrap() as nat;
        let share = od_of + yd_of + value_of;
        let fa = spec_final_absorption(project) as nat;
        if (farming_data.unit_price as nat) * (otd + ytd)
            > 0xffffffffffffffffffffffffffffffff {
            ModelError::ArithmeticOverflow
        } else if share > 0xffffffffffffffffffffffffffffffff {
            ModelError::ArithmeticOverflow
        } else if ca * share > 0xffffffffffffffffffffffffffffffff {
            ModelError::ArithmeticOverflow
        } else if ca * share * 1000000 > 0xffffffffffffffffffffffffffffffff {
            ModelError::ArithmeticOverflow
        } else if fa < ca {
            ModelError::ArithmeticOverflow
        } else if (fa - ca) * share > 0xffffffffffffffffffffffffffffffff {
            ModelError::ArithmeticOverflow
        } else {
            ModelError::ArithmeticOverflow
        }
    }
}

/// What the detail fields hold after a successful blockchain-data
/// stage. The two credit shares are quotients of exact integer
/// products — `absorption x share` and `(final - current) x share`
/// over the project value — truncated toward zero at six fractional
/// digits, the crate's display precision for quotients: every
/// intermediate is an exact integer, and only the final division
/// rounds. (An unbounded exact quotient does not terminate for a
/// divisor that does not divide evenly; six digits is the stated
/// rule.)
pub open spec fn details_fields(
    post: &CustomerDetailsProjectData,
    pre: &CustomerDetailsProjectData,
    data: Seq<Vec<Felt>>,
    project: &CompleteFarmingData,
    farming_data: &CustomerGlobalDataForComputation,
    value_of: u128,
    customer_tokens: Seq<CustomerToken>,
) -> bool {
    let ca = u256_of(data[0]@).unwrap();
    let od_of = u256_of(data[1]@).unwrap();
    let yd_of = u256_of(data[2]@).unwrap();
    let claimable_of = u256_of(data[3]@).unwrap();
    let releasable_of = u256_of(data[4]@).unwrap();
    let claimed_of = u256_of(data[5]@).unwrap();
    let released_of = u256_of(data[6]@).unwrap();
    let otd = u256_of(data[7]@).unwrap();
    let ytd = u256_of(data[8]@).unwrap();
    let min_to_claim = u256_of(data[9]@).unwrap();
    let share = (od_of as nat) + (yd_of as nat) + value_of;
    let pv = farming_data.project_value as nat;
    let fa = spec_final_absorption(project) as nat;
    &&& post.overview.total_removal@ == hc_of_mass(ca as u128, project.ton_equivalent)
    &&& post.overview.total_yielded@ == hc_of_slot(ytd as u128, project.value_decimals)
    &&& post.overview.total_offseted@ == hc_of_slot(otd as u128, project.value_decimals)
    &&& post.overview.tvl@ == hc_of_erc20(
        ((farming_data.unit_price as nat) * ((otd as nat) + (ytd as nat))) as u128,
        farming_data.payment_decimals,
        farming_data.payment_symbol@,
    )
    &&& post.overview.apr == pre.overview.apr
    &&& post.carbon_credits.generated_credits@ == hc_of_decimal(
        Decimal { mantissa: (((ca as int) * (share as int) * 1000000) / (pv as int)) as u128, scale: 6 },
    )
    &&& post.carbon_credits.to_be_generated@ == hc_of_decimal(
        Decimal { mantissa: ((((fa - ca) as int) * (share as int) * 1000000) / (pv as int)) as u128, scale: 6 },
    )
    &&& post.carbon_credits.yield_pool.available@ == hc_of_erc20(
        releasable_of as u128,
        project.payment_decimals,
        project.payment_symbol@,
    )
    &&& post.carbon_credits.yield_pool.total@ == hc_of_erc20(
        released_of as u128,
        project.payment_decimals,
        project.payment_symbol@,
    )
    &&& post.carbon_credits.offset.available@ == hc_of_mass(
        claimable_of as u128,
        project.ton_equivalent,
    )
    &&& post.carbon_credits.offset.total@ == hc_of_mass(
        claimed_of as u128,
        project.ton_equivalent,
    )
    &&& post.carbon_credits.min_to_claim@ == hc_of_decimal(
        Decimal { mantissa: min_to_claim as u128, scale: 0 },
    )
    &&& post.allocation.total@ == hc_of_slot(share as u128, project.value_decimals)
    &&& post.allocation.yield_pool@ == hc_of_slot(yd_of as u128, project.value_decimals)
    &&& post.allocation.offseted@ == hc_of_slot(od_of as u128, project.value_decimals)
    &&& post.allocation.undeposited@ == hc_of_slot(value_of, project.value_decimals)
    &&& post.allocation.tokens@.len() == customer_tokens.len()
    &&& (forall|i: int|
        0 <= i < customer_tokens.len() ==> {
            let t = #[trigger] customer_tokens[i];
            let s = post.allocation.tokens@[i];
            s.wallet@ == t.wallet@ && s.project_address@ == t.project_address@ && s.slot == t.slot
                && s.token_id == t.token_id && s.value == (SlotValue {
                value: t.value,
                decimals: project.value_decimals,
            })
        })
    &&& post.ton_equivalent == project.ton_equivalent
    &&& post.payment_decimals == project.payment_decimals
    &&& post.unit_price@ == hc_of_erc20(
        farming_data.unit_price,
        farming_data.payment_decimals,
        farming_data.payment_symbol@,
    )
    &&& contracts_eq(&post.contracts, &pre.contracts)
}

impl CustomerDetailsProjectData {
    /// A fresh accumulator with everything empty.
    pub fn new() -> (r: Self)
        ensures
            details_empty(&r),
    {
        CustomerDetailsProjectData {
            overview: Overview {
                total_removal: HumanComprehensibleU256::empty(),
                tvl: HumanComprehensibleU256::empty(),
                apr: ProjectApr::NotAvailable,
                total_yielded: HumanComprehensibleU256::empty(),
                total_offseted: HumanComprehensibleU256::empty(),
            },
            carbon_credits: CarbonCredits {
                generated_credits: HumanComprehensibleU256::empty(),
                to_be_generated: HumanComprehensibleU256::empty(),
                yield_pool: PoolLiquidity {
                    total: HumanComprehensibleU256::empty(),
                    available: HumanComprehensibleU256::empty(),
                },
                offset: PoolLiquidity {
                    total: HumanComprehensibleU256::empty(),
                    available: HumanComprehensibleU256::empty(),
                },
                min_to_claim: HumanComprehensibleU256::empty(),
            },
            allocation: Allocation {
                total: HumanComprehensibleU256::empty(),
                yield_pool: HumanComprehensibleU256::empty(),
                offseted: HumanComprehensibleU256::empty(),
                undeposited: HumanComprehensibleU256::empty(),
                tokens: Vec::new(),
            },
            contracts: ContractsList {
                yielder: String::new(),
                yielder_abi: String::new(),
                offseter: String::new(),
                offseter_abi: String::new(),
                project: String::new(),
                project_abi: String::new(),
                payment: String::new(),
                payment_abi: String::new(),
            },
            payment_decimals: 0,
            ton_equivalent: 0,
            unit_price: HumanComprehensibleU256::empty(),
        }
    }

    /// Copy contract addresses and interface documents into the view:
    /// yielder and offseter from the computation metadata, project and
    /// payment from the full farming metadata, absent fields defaulted
    /// to empty. Everything else stays as it was.
    pub fn with_contracts(
        &mut self,
        project_data: &CustomerGlobalDataForComputation,
        farming_data: &CompleteFarmingData,
    )
        ensures
            final(self).contracts.yielder@ == project_data.yielder_address@,
            final(self).contracts.offseter@ == project_data.offseter_address@,
            final(self).contracts.project@ == farming_data.address@,
            final(self).contracts.payment@ == opt_text(farming_data.payment_address),
            final(self).contracts.yielder_abi@ == opt_text(farming_data.yielder_abi),
            final(self).contracts.offseter_abi@ == opt_text(farming_data.offseter_abi),
            final(self).contracts.project_abi@ == opt_text(farming_data.project_abi),
            final(self).contracts.payment_abi@ == opt_text(farming_data.payment_abi),
            overview_eq(&final(self).overview, &old(self).overview),
            credits_eq(&final(self).carbon_credits, &old(self).carbon_credits),
            allocation_eq(&final(self).allocation, &old(self).allocation),
            final(self).payment_decimals == old(self).payment_decimals,
            final(self).ton_equivalent == old(self).ton_equivalent,
            final(self).unit_price@ == old(self).unit_price@,
    {
        self.contracts = ContractsList {
            yielder: project_data.yielder_address.clone(),
            offseter: project_data.offseter_address.clone(),
            project: farming_data.address.clone(),
            payment: opt_string(&farming_data.payment_address),
            yielder_abi: opt_string(&farming_data.yielder_abi),
            offseter_abi: opt_string(&farming_data.offseter_abi),
            project_abi: opt_string(&farming_data.project_abi),
            payment_abi: opt_string(&farming_data.payment_abi),
        };
    }

    /// Set the annual-return figure. Everything else stays as it was.
    pub fn with_apr(&mut self, apr: ProjectApr)
        ensures
            final(self).overview.apr == apr,
            final(self).overview.total_removal@ == old(self).overview.total_removal@,
            final(self).overview.tvl@ == old(self).overview.tvl@,
            final(self).overview.total_yielded@ == old(self).overview.total_yielded@,
            final(self).overview.total_offseted@ == old(self).overview.total_offseted@,
            credits_eq(&final(self).carbon_credits, &old(self).carbon_credits),
            allocation_eq(&final(self).allocation, &old(self).allocation),
            contracts_eq(&final(self).contracts, &old(self).contracts),
            final(self).payment_decimals == old(self).payment_decimals,
            final(self).ton_equivalent == old(self).ton_equivalent,
            final(self).unit_price@ == old(self).unit_price@,
    {
        self.overview.apr = apr;
    }

    /// Decode the ten raw responses (current absorption, the
    /// customer's offseter and yielder deposits, claimable, releasable,
    /// claimed, released, the offseter and yielder totals, minimum to
    /// claim) and fill every computed section of the view: headline
    /// figures, carbon-credit shares computed on exact integer
    /// products and truncated toward zero at six fractional digits,
    /// pool liquidity, allocation and the scaled token list.
    /// Contracts and the annual return stay as they were. Any
    /// malformed input is fatal: on an error nothing changes.
    pub fn compute_blockchain_data(
        &mut self,
        data: &Vec<Vec<Felt>>,
        project: &CompleteFarmingData,
        farming_data: &CustomerGlobalDataForComputation,
        value_of: u128,
        customer_tokens: &Vec<CustomerToken>,
    ) -> (r: Result<(), ModelError>)
        requires
            forall|i: int, j: int|
                0 <= i < data@.len() && 0 <= j < data@[i]@.len()
                    ==> (#[trigger] data@[i]@[j]).wf(),
        ensures
            r is Ok <==> details_ok(data@, project, farming_data, value_of),
            r matches Err(e) ==> e == details_err(data@, project, farming_data, value_of)
                && details_eq(final(self), old(self)),
            r is Ok ==> details_fields(
                final(self),
                old(self),
                data@,
                project,
                farming_data,
                value_of,
                customer_tokens@,
            ),
    {
        if data.len() != 10 {
            return Err(ModelError::WrongResponseCount);
        }
        let current_absorption = match decode_u256(&data[0]) {
            Ok(v) => v,
            Err(e) => {
                return Err(e);
            },
        };
        let offseter_deposited_of = match decode_u256(&data[1]) {
            Ok(v) => v,
            Err(e) => {
                return Err(e);
            },
        };
        let yielder_deposited_of = match decode_u256(&data[2]) {
            Ok(v) => v,
            Err(e) => {
                return Err(e);
            },
        };
        let claimable_of = match decode_u256(&data[3]) {
            Ok(v) => v,
            Err(e) => {
                return Err(e);
            },
        };
        let releasable_of = match decode_u256(&data[4]) {
            Ok(v) => v,
            Err(e) => {
                return Err(e);
            },
        };
        let claimed_of = match decode_u256(&data[5]) {
            Ok(v) => v,
            Err(e) => {
                return Err(e);
            },
        };
        let released_of = match decode_u256(&data[6]) {
            Ok(v) => v,
            Err(e) => {
                return Err(e);
            },
        };
        let offseter_total_deposited = match decode_u256(&data[7]) {
            Ok(v) => v,
            Err(e) => {
                return Err(e);
            },
        };
        let yielder_total_deposited = match decode_u256(&data[8]) {
            Ok(v) => v,
            Err(e) => {
                return Err(e);
            },
        };
        let min_to_claim = match decode_u256(&data[9]) {
            Ok(v) => v,
            Err(e) => {
                return Err(e);
            },
        };
        if project.ton_equivalent == 0 {
            return Err(ModelError::DivisionByZero);
        }
        if farming_data.project_value == 0 {
            return Err(ModelError::DivisionByZero);
        }
        let ot_yt: u128 = offseter_total_deposited as u128 + yielder_total_deposited as u128;
        let up: u128 = farming_data.unit_price;
        if up != 0 && ot_yt > u128::MAX / up {
            proof {
                assert((up as nat) * (ot_yt as nat) > 0xffffffffffffffffffffffffffffffff)
                    by (nonlinear_arith)
                    requires
                        up != 0,
                        ot_yt > 0xffffffffffffffffffffffffffffffffu128 / up,
                ;
            }
            return Err(ModelError::ArithmeticOverflow);
        }
        proof {
            if up != 0 {
                assert((up as nat) * (ot_yt as nat) <= 0xffffffffffffffffffffffffffffffff)
                    by (nonlinear_arith)
                    requires
                        up != 0,
                        ot_yt <= 0xffffffffffffffffffffffffffffffffu128 / up,
                ;
            }
        }
        let tvl_raw: u128 = up * ot_yt;
        let yd_od: u128 = offseter_deposited_of as u128 + yielder_deposited_of as u128;
        if value_of > u128::MAX - yd_od {
            return Err(ModelError::ArithmeticOverflow);
        }
        let share: u128 = yd_od + value_of;
        let ca128: u128 = current_absorption as u128;
        if ca128 != 0 && share > u128::MAX / ca128 {
            proof {
                assert((ca128 as nat) * (share as nat) > 0xffffffffffffffffffffffffffffffff)
                    by (nonlinear_arith)
                    requires
                        ca128 != 0,
                        share > 0xffffffffffffffffffffffffffffffffu128 / ca128,
                ;
            }
            return Err(ModelError::ArithmeticOverflow);
        }
        proof {
            if ca128 != 0 {
                assert((ca128 as nat) * (share as nat) <= 0xffffffffffffffffffffffffffffffff)
                    by (nonlinear_arith)
                    requires
                        ca128 != 0,
                        share <= 0xffffffffffffffffffffffffffffffffu128 / ca128,
                ;
            }
        }
        let num: u128 = ca128 * share;
        if num > u128::MAX / 1000000 {
            proof {
                assert((num as nat) * 1000000 > 0xffffffffffffffffffffffffffffffff)
                    by (nonlinear_arith)
                    requires
                        num > 0xffffffffffffffffffffffffffffffffu128 / 1000000,
                ;
            }
            return Err(ModelError::ArithmeticOverflow);
        }
        proof {
            assert((num as nat) * 1000000 <= 0xffffffffffffffffffffffffffffffff)
                by (nonlinear_arith)
                requires
                    num <= 0xffffffffffffffffffffffffffffffffu128 / 1000000,
            ;
        }
        let num6: u128 = num * 1000000;
        let gen_mantissa: u128 = num6 / farming_data.project_value;
        let fa: u128 = project.final_absorption();
        if fa < ca128 {
            return Err(ModelError::ArithmeticOverflow);
        }
        let rem: u128 = fa - ca128;
        if rem != 0 && share > u128::MAX / rem {
            proof {
                assert((rem as nat) * (share as nat) > 0xffffffffffffffffffffffffffffffff)
                    by (nonlinear_arith)
                    requires
                        rem != 0,
                        share > 0xffffffffffffffffffffffffffffffffu128 / rem,
                ;
            }
            return Err(ModelError::ArithmeticOverflow);
        }
        proof {
            if rem != 0 {
                assert((rem as nat) * (share as nat) <= 0xffffffffffffffffffffffffffffffff)
                    by (nonlinear_arith)
                    requires
                        rem != 0,
                        share <= 0xffffffffffffffffffffffffffffffffu128 / rem,
                ;
            }
        }
        let rnum: u128 = rem * share;
        if rnum > u128::MAX / 1000000 {
            proof {
                assert((rnum as nat) * 1000000 > 0xffffffffffffffffffffffffffffffff)
                    by (nonlinear_arith)
                    requires
                        rnum > 0xffffffffffffffffffffffffffffffffu128 / 1000000,
                ;
            }
            return Err(ModelError::ArithmeticOverflow);
        }
        proof {
            assert((rnum as nat) * 1000000 <= 0xffffffffffffffffffffffffffffffff)
                by (nonlinear_arith)
                requires
                    rnum <= 0xffffffffffffffffffffffffffffffffu128 / 1000000,
            ;
        }
        let rnum6: u128 = rnum * 1000000;
        let tbg_mantissa: u128 = rnum6 / farming_data.project_value;
        let mut tokens: Vec<CustomerTokenWithSlotValue> = Vec::new();
        let mut i: usize = 0;
        while i < customer_tokens.len()
            invariant
                i <= customer_tokens@.len(),
                tokens@.len() == i,
                forall|k: int|
                    0 <= k < i ==> {
                        let t = #[trigger] customer_tokens@[k];
                        let s = tokens@[k];
                        s.wallet@ == t.wallet@ && s.project_address@ == t.project_address@
                            && s.slot == t.slot && s.token_id == t.token_id && s.value
                            == (SlotValue { value: t.value, decimals: project.value_decimals })
                    },
            decreases customer_tokens@.len() - i,
        {
            let t = &customer_tokens[i];
            tokens.push(
                CustomerTokenWithSlotValue {
                    wallet: t.wallet.clone(),
                    project_address: t.project_address.clone(),
                    slot: t.slot,
                    token_id: t.token_id,
                    value: SlotValue::from_blockchain(t.value, project.value_decimals),
                },
            );
            i = i + 1;
        }
        let total_removal = match Mass::from_blockchain(
            ca128,
            project.ton_equivalent,
        ).to_displayable() {
            Ok(h) => h,
            Err(_) => {
                proof {
                    assert(false);
                }
                return Err(ModelError::ArithmeticOverflow);
            },
        };
        let offset_available = match Mass::from_blockchain(
            claimable_of as u128,
            project.ton_equivalent,
        ).to_displayable() {
            Ok(h) => h,
            Err(_) => {
                proof {
                    assert(false);
                }
                return Err(ModelError::ArithmeticOverflow);
            },
        };
        let offset_total = match Mass::from_blockchain(
            claimed_of as u128,
            project.ton_equivalent,
        ).to_displayable() {
            Ok(h) => h,
            Err(_) => {
                proof {
                    assert(false);
                }
                return Err(ModelError::ArithmeticOverflow);
            },
        };
        self.overview.total_removal = total_removal;
        self.overview.total_yielded = SlotValue::from_blockchain(
            yielder_total_deposited as u128,
            project.value_decimals,
        ).to_displayable();
        self.overview.total_offseted = SlotValue::from_blockchain(
            offseter_total_deposited as u128,
            project.value_decimals,
        ).to_displayable();
        self.overview.tvl = Erc20::from_blockchain(
            tvl_raw,
            farming_data.payment_decimals,
            farming_data.payment_symbol.clone(),
        ).to_displayable();
        self.carbon_credits.generated_credits = Decimal {
            mantissa: gen_mantissa,
            scale: 6,
        }.to_displayable();
        self.carbon_credits.to_be_generated = Decimal {
            mantissa: tbg_mantissa,
            scale: 6,
        }.to_displayable();
        self.carbon_credits.yield_pool = PoolLiquidity {
            available: Erc20::from_blockchain(
                releasable_of as u128,
                project.payment_decimals,
                project.payment_symbol.clone(),
            ).to_displayable(),
            total: Erc20::from_blockchain(
                released_of as u128,
                project.payment_decimals,
                project.payment_symbol.clone(),
            ).to_displayable(),
        };
        self.carbon_credits.offset = PoolLiquidity { available: offset_available, total: offset_total };
        self.carbon_credits.min_to_claim = Decimal {
            mantissa: min_to_claim as u128,
            scale: 0,
        }.to_displayable();
        self.allocation.total = SlotValue::from_blockchain(
            share,
            project.value_decimals,
        ).to_displayable();
        self.allocation.yield_pool = SlotValue::from_blockchain(
            yielder_deposited_of as u128,
            project.value_decimals,
        ).to_displayable();
        self.allocation.offseted = SlotValue::from_blockchain(
            offseter_deposited_of as u128,
            project.value_decimals,
        ).to_displayable();
        self.allocation.undeposited = SlotValue::from_blockchain(
            value_of,
            project.value_decimals,
        ).to_displayable();
        self.allocation.tokens = tokens;
        self.ton_equivalent = project.ton_equivalent;
        self.payment_decimals = project.payment_decimals;
        self.unit_price = Erc20::from_blockchain(
            farming_data.unit_price,
            farming_data.payment_decimals,
            farming_data.payment_symbol.clone(),
        ).to_displayable();
        Ok(())
    }

    /// An immutable snapshot of the accumulator, field for field.
    pub fn build(&self) -> (r: Self)
        ensures
            details_eq(&r, self),
    {
        let mut tokens: Vec<CustomerTokenWithSlotValue> = Vec::new();
        let mut i: usize = 0;
        while i < self.allocation.tokens.len()
            invariant
                i <= self.allocation.tokens@.len(),
                tokens@.len() == i,
                forall|k: int|
                    0 <= k < i ==> token_eq(
                        &tokens@[k],
                        &#[trigger] self.allocation.tokens@[k],
                    ),
            decreases self.allocation.tokens@.len() - i,
        {
            let t = &self.allocation.tokens[i];
            tokens.push(
                CustomerTokenWithSlotValue {
                    wallet: t.wallet.clone(),
                    project_address: t.project_address.clone(),
                    slot: t.slot,
                    token_id: t.token_id,
                    value: t.value,
                },
            );
            i = i + 1;
        }
        CustomerDetailsProjectData {
            overview: Overview {
                total_removal: self.overview.total_removal.duplicate(),
                tvl: self.overview.tvl.duplicate(),
                apr: self.overview.apr,
                total_yielded: self.overview.total_yielded.duplicate(),
                total_offseted: self.overview.total_offseted.duplicate(),
            },
            carbon_credits: CarbonCredits {
                generated_credits: self.carbon_credits.generated_credits.duplicate(),
                to_be_generated: self.carbon_credits.to_be_generated.duplicate(),
                yield_pool: PoolLiquidity {
                    total: self.carbon_credits.yield_pool.total.duplicate(),
                    available: self.carbon_credits.yield_pool.available.duplicate(),
                },
                offset: PoolLiquidity {
                    total: self.carbon_credits.offset.total.duplicate(),
                    available: self.carbon_credits.offset.available.duplicate(),
                },
                min_to_claim: self.carbon_credits.min_to_claim.duplicate(),
            },
            allocation: Allocation {
                total: self.allocation.total.duplicate(),
                yield_pool: self.allocation.yield_pool.duplicate(),
                offseted: self.allocation.offseted.duplicate(),
                undeposited: self.allocation.undeposited.duplicate(),
                tokens,
            },
            contracts: ContractsList {
                yielder: self.contracts.yielder.clone(),
                yielder_abi: self.contracts.yielder_abi.clone(),
                offseter: self.contracts.offseter.clone(),
                offseter_abi: self.contracts.offseter_abi.clone(),
                project: self.contracts.project.clone(),
                project_abi: self.contracts.project_abi.clone(),
                payment: self.contracts.payment.clone(),
                payment_abi: self.contracts.payment_abi.clone(),
            },
            payment_decimals: self.payment_decimals,
            ton_equivalent: self.ton_equivalent,
            unit_price: self.unit_price.duplicate(),
        }
    }
}

} // verus!
