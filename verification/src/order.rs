//! The order: a synthetic trade intent with an identifier, a side, a price in
//! tenths and a quantity.

use vstd::prelude::*;
use crate::source::{draw_between, fresh_id, is_hyphenated_id};

verus! {

/// Lowest price an order may carry, in tenths of a unit.
pub const MIN_PRICE_TENTHS: u32 = 980;

/// Highest price an order may carry, in tenths of a unit.
pub const MAX_PRICE_TENTHS: u32 = 1020;

/// Smallest quantity of an order.
pub const MIN_QUANTITY: u32 = 5;

/// Largest quantity of an order.
pub const MAX_QUANTITY: u32 = 25;

/// Which way an order trades.
#[derive(Debug, Clone, Copy, PartialEq, Eq, Structural)]
pub enum Side {
    Buy,
    Sell,
}

/// The text by which a side goes on the wire.
pub open spec fn label_of(side: Side) -> Seq<char> {
    match side {
        Side::Buy => "Buy"@,
        Side::Sell => "Sell"@,
    }
}

/// The side that a fair coin picks: `Buy` on `true`, `Sell` on `false`.
pub open spec fn side_of(buy: bool) -> Side {
    if buy {
        Side::Buy
    } else {
        Side::Sell
    }
}

/// The side that a wire text names, if it names one.
pub open spec fn side_named(label: Seq<char>) -> Option<Side> {
    if label == "Buy"@ {
        Some(Side::Buy)
    } else if label == "Sell"@ {
        Some(Side::Sell)
    } else {
        None
    }
}

impl Side {
    /// The side that `label` names: `Buy` for `"Buy"`, `Sell` for `"Sell"`,
    /// none for any other text.
    pub fn from_label(label: &String) -> (side: Option<Side>)
        ensures
            side == side_named(label@),
    {
        if *label == "Buy".to_string() {
            Some(Side::Buy)
        } else if *label == "Sell".to_string() {
            Some(Side::Sell)
        } else {
            None
        }
    }

    /// The side for one draw of a fair coin.
    pub fn from_draw(buy: bool) -> (side: Side)
        ensures
            side == side_of(buy),
    {
        if buy {
            Side::Buy
        } else {
            Side::Sell
        }
    }

    /// The wire text of this side, `"Buy"` or `"Sell"`.
    pub fn label(&self) -> (text: String)
        ensures
            text@ == label_of(*self),
    {
        match self {
            Side::Buy => "Buy".to_string(),
            Side::Sell => "Sell".to_string(),
        }
    }
}

/// What an order is, as plain mathematical values.
pub struct OrderView {
    pub id: Seq<char>,
    pub side: Side,
    pub price_tenths: nat,
    pub quantity: nat,
}

impl OrderView {
    /// The price lies in the closed interval from 98.0 to 102.0 and the
    /// quantity in the closed interval from 5 to 25.
    pub open spec fn in_bounds(self) -> bool {
        &&& price_in_bounds(self.price_tenths)
        &&& quantity_in_bounds(self.quantity)
    }
}

/// A price in tenths that lies between 98.0 and 102.0, ends included.
pub open spec fn price_in_bounds(price_tenths: nat) -> bool {
    MIN_PRICE_TENTHS <= price_tenths <= MAX_PRICE_TENTHS
}

/// A quantity between 5 and 25, ends included.
pub open spec fn quantity_in_bounds(quantity: nat) -> bool {
    MIN_QUANTITY <= quantity <= MAX_QUANTITY
}

/// The fields of an order as they go on the wire, the side as its text.
#[derive(Debug, Clone, PartialEq, Eq)]
pub struct OrderRecord {
    pub id: String,
    pub order_type: String,
    pub price_tenths: u32,
    pub quantity: u32,
}

/// A record as plain mathematical values.
pub struct OrderRecordView {
    pub id: Seq<char>,
    pub order_type: Seq<char>,
    pub price_tenths: nat,
    pub quantity: nat,
}

impl View for OrderRecord {
    type V = OrderRecordView;

    open spec fn view(&self) -> OrderRecordView {
        OrderRecordView {
            id: self.id@,
            order_type: self.order_type@,
            price_tenths: self.price_tenths as nat,
            quantity: self.quantity as nat,
        }
    }
}

/// The record of an order: its fields, with the side's wire text.
pub open spec fn record_of(order: OrderView) -> OrderRecordView {
    OrderRecordView {
        id: order.id,
        order_type: label_of(order.side),
        price_tenths: order.price_tenths,
        quantity: order.quantity,
    }
}

/// The order that a record stands for, or the first thing wrong with it: a
/// text that names no side, then the price's bound, then the quantity's.
pub open spec fn order_of(record: OrderRecordView) -> Result<OrderView, OrderError> {
    match side_named(record.order_type) {
        None => Err(OrderError::UnknownSide),
        Some(side) => if !price_in_bounds(record.price_tenths) {
            Err(OrderError::PriceOutOfRange)
        } else if !quantity_in_bounds(record.quantity) {
            Err(OrderError::QuantityOutOfRange)
        } else {
            Ok(
                OrderView {
                    id: record.id,
                    side,
                    price_tenths: record.price_tenths,
                    quantity: record.quantity,
                },
            )
        },
    }
}

/// Why a set of draws, or a record, makes no order.
#[derive(Debug, Clone, Copy, PartialEq, Eq, Structural)]
pub enum OrderError {
    /// The price is below 98.0 or above 102.0.
    PriceOutOfRange,
    /// The quantity is below 5 or above 25.
    QuantityOutOfRange,
    /// The side's text is neither `"Buy"` nor `"Sell"`.
    UnknownSide,
}

/// What `Order::assemble` owes for the given draws: the order made of them, or
/// the first bound that they break, the price's before the quantity's.
pub open spec fn assembled(id: Seq<char>, buy: bool, price_tenths: nat, quantity: nat) -> Result<
    OrderView,
    OrderError,
> {
    if !price_in_bounds(price_tenths) {
        Err(OrderError::PriceOutOfRange)
    } else if !quantity_in_bounds(quantity) {
        Err(OrderError::QuantityOutOfRange)
    } else {
        Ok(OrderView { id, side: side_of(buy), price_tenths, quantity })
    }
}

/// A trade intent. Every value of this type has its price and its quantity in
/// bounds.
#[derive(Debug, PartialEq, Eq)]
pub struct Order {
    id: String,
    side: Side,
    price_tenths: u32,
    quantity: u32,
}

impl View for Order {
    type V = OrderView;

    closed spec fn view(&self) -> OrderView {
        OrderView {
            id: self.id@,
            side: self.side,
            price_tenths: self.price_tenths as nat,
            quantity: self.quantity as nat,
        }
    }
}

impl Clone for Order {
    /// A second order equal to this one in every field.
    fn clone(&self) -> (copy: Order)
        ensures
            copy@ == self@,
    {
        proof {
            use_type_invariant(self);
        }
        Order {
            id: self.id.clone(),
            side: self.side,
            price_tenths: self.price_tenths,
            quantity: self.quantity,
        }
    }
}

impl Order {
    #[verifier::type_invariant]
    closed spec fn bounded(&self) -> bool {
        self@.in_bounds()
    }

    /// Makes an order of four draws, or says which bound they break.
    pub fn assemble(id: String, buy: bool, price_tenths: u32, quantity: u32) -> (made: Result<
        Order,
        OrderError,
    >)
        ensures
            match made {
                Ok(order) => assembled(id@, buy, price_tenths as nat, quantity as nat) == Ok::<
                    OrderView,
                    OrderError,
                >(order@),
                Err(e) => assembled(id@, buy, price_tenths as nat, quantity as nat) == Err::<
                    OrderView,
                    OrderError,
                >(e),
            },
    {
        if price_tenths < MIN_PRICE_TENTHS || price_tenths > MAX_PRICE_TENTHS {
            Err(OrderError::PriceOutOfRange)
        } else if quantity < MIN_QUANTITY || quantity > MAX_QUANTITY {
            Err(OrderError::QuantityOutOfRange)
        } else {
            Ok(Order { id, side: Side::from_draw(buy), price_tenths, quantity })
        }
    }

    /// Makes an order of a coin and a price that the caller drew, with an
    /// identifier and a quantity drawn here.
    ///
    /// The identifier and the quantity are random. Whatever they come out as,
    /// the order is made exactly when the price is in bounds, it has the side
    /// and the price that were given, and its identifier is hyphenated.
    pub fn generate(buy: bool, price_tenths: u32) -> (made: Result<Order, OrderError>)
        ensures
            made.is_ok() <==> price_in_bounds(price_tenths as nat),
            made.is_err() ==> made == Err::<Order, OrderError>(OrderError::PriceOutOfRange),
            made.is_ok() ==> {
                let order = made.unwrap()@;
                &&& order.side == side_of(buy)
                &&& order.price_tenths == price_tenths
                &&& order.in_bounds()
                &&& is_hyphenated_id(order.id)
            },
    {
        let id = fresh_id();
        let quantity: u32 = draw_between(MIN_QUANTITY, MAX_QUANTITY);
        Order::assemble(id, buy, price_tenths, quantity)
    }

    /// The fields of this order as they go on the wire.
    pub fn to_record(&self) -> (record: OrderRecord)
        ensures
            record@ == record_of(self@),
    {
        OrderRecord {
            id: self.id.clone(),
            order_type: self.side.label(),
            price_tenths: self.price_tenths,
            quantity: self.quantity,
        }
    }

    /// The order that a record stands for, or what is wrong with the record.
    pub fn from_record(record: OrderRecord) -> (made: Result<Order, OrderError>)
        ensures
            match made {
                Ok(order) => order_of(record@) == Ok::<OrderView, OrderError>(order@),
                Err(e) => order_of(record@) == Err::<OrderView, OrderError>(e),
            },
    {
        match Side::from_label(&record.order_type) {
            None => Err(OrderError::UnknownSide),
            Some(side) => {
                if record.price_tenths < MIN_PRICE_TENTHS || record.price_tenths
                    > MAX_PRICE_TENTHS {
                    Err(OrderError::PriceOutOfRange)
                } else if record.quantity < MIN_QUANTITY || record.quantity > MAX_QUANTITY {
                    Err(OrderError::QuantityOutOfRange)
                } else {
                    Ok(
                        Order {
                            id: record.id,
                            side,
                            price_tenths: record.price_tenths,
                            quantity: record.quantity,
                        },
                    )
                }
            },
        }
    }

    /// The identifier.
    pub fn id(&self) -> (id: &String)
        ensures
            id@ == self@.id,
    {
        &self.id
    }

    /// The side.
    pub fn side(&self) -> (side: Side)
        ensures
            side == self@.side,
    {
        self.side
    }

    /// The wire text of the side: `"Buy"` or `"Sell"`, nothing else.
    pub fn order_type(&self) -> (text: String)
        ensures
            text@ == label_of(self@.side),
            text@ == "Buy"@ || text@ == "Sell"@,
    {
        self.side.label()
    }

    /// The price in tenths, between 980 and 1020.
    pub fn price_tenths(&self) -> (price: u32)
        ensures
            price == self@.price_tenths,
            price_in_bounds(price as nat),
    {
        proof {
            use_type_invariant(self);
        }
        self.price_tenths
    }

    /// The quantity, between 5 and 25.
    pub fn quantity(&self) -> (quantity: u32)
        ensures
            quantity == self@.quantity,
            quantity_in_bounds(quantity as nat),
    {
        proof {
            use_type_invariant(self);
        }
        self.quantity
    }
}

/// Every order is in bounds, and every order's wire side is `"Buy"` or
/// `"Sell"`: the bounds of `assembled` are those of the order it yields.
pub proof fn assembled_orders_are_in_bounds(
    id: Seq<char>,
    buy: bool,
    price_tenths: nat,
    quantity: nat,
)
    ensures
        assembled(id, buy, price_tenths, quantity) is Ok ==> {
            let order = assembled(id, buy, price_tenths, quantity).unwrap();
            &&& order.in_bounds()
            &&& 980 <= order.price_tenths <= 1020
            &&& 5 <= order.quantity <= 25
            &&& (label_of(order.side) == "Buy"@ || label_of(order.side) == "Sell"@)
        },
        assembled(id, buy, price_tenths, quantity) is Ok <==> (980 <= price_tenths <= 1020 && 5
            <= quantity <= 25),
{
}

/// A side's wire text names that side and no other.
pub proof fn label_names_its_side(side: Side)
    ensures
        side_named(label_of(side)) == Some(side),
{
    reveal_strlit("Buy");
    reveal_strlit("Sell");
    assert("Buy"@.len() != "Sell"@.len());
}

/// Writing an order down as a record and reading the record back gives the
/// order again, equal in every field.
pub proof fn record_round_trip(order: OrderView)
    requires
        order.in_bounds(),
    ensures
        order_of(record_of(order)) == Ok::<OrderView, OrderError>(order),
{
    label_names_its_side(order.side);
}

} // verus!
