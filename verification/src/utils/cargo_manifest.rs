//! The gift orders that a package manifest carries in its metadata.

use crate::utils::error_responses::{magic_keyword_not_provided, no_content};
use crate::utils::reply::{Reply, Status};
use crate::utils::text::{
    decimal, join_lines, joined_lines, push_decimal, same_text, texts_of,
};
use vstd::prelude::*;

verus! {

/// One order: what is wanted, and how many of it.
#[derive(Debug, Clone)]
pub struct Order {
    pub item: String,
    pub quantity: u32,
}

/// The line that shows an order: the item, a colon and a blank, the quantity.
pub open spec fn order_line(order: Order) -> Seq<char> {
    order.item@ + ": "@ + decimal(order.quantity as nat)
}

/// The lines that show some orders, one line for each.
pub open spec fn order_lines(orders: Seq<Order>) -> Seq<Seq<char>> {
    Seq::new(orders.len(), |i: int| order_line(orders[i]))
}

/// The text that shows some orders: their lines, a line end between each two.
pub open spec fn orders_text(orders: Seq<Order>) -> Seq<char> {
    joined_lines(order_lines(orders))
}

impl Order {
    /// The order of `quantity` pieces of `item`.
    pub fn new(item: String, quantity: u32) -> (order: Self)
        ensures
            order.item == item,
            order.quantity == quantity,
    {
        Self { item, quantity }
    }

    /// The line that shows the order.
    pub fn line(&self) -> (text: String)
        ensures
            text@ == order_line(*self),
    {
        let mut text = self.item.clone();
        text.append(": ");
        push_decimal(&mut text, self.quantity);
        text
    }
}

/// The formats in which a manifest may be sent.
#[derive(Debug, Clone, Copy, PartialEq, Eq, Structural)]
pub enum ManifestFormat {
    Toml,
    Json,
    Yaml,
}

/// The format that a content type announces, if it is one of the three.
pub open spec fn format_of(content_type: Seq<char>) -> Option<ManifestFormat> {
    if content_type == "application/toml"@ {
        Some(ManifestFormat::Toml)
    } else if content_type == "application/json"@ {
        Some(ManifestFormat::Json)
    } else if content_type == "application/yaml"@ {
        Some(ManifestFormat::Yaml)
    } else {
        None
    }
}

/// The format that a content type announces. A content type that is none
/// of the three is to be answered as an unsupported one.
pub fn manifest_format(content_type: &str) -> (format: Option<ManifestFormat>)
    ensures
        format == format_of(content_type@),
{
    if same_text(content_type, "application/toml") {
        Some(ManifestFormat::Toml)
    } else if same_text(content_type, "application/json") {
        Some(ManifestFormat::Json)
    } else if same_text(content_type, "application/yaml") {
        Some(ManifestFormat::Yaml)
    } else {
        None
    }
}

/// The keyword that a manifest must carry for its orders to be read.
pub const MAGIC_KEYWORD: &'static str = "Christmas 2024";

/// A value of a manifest's free-form metadata, as far as orders are read
/// from it. Numbers with a fraction, and dates, keep only their kind.
#[derive(Debug, PartialEq, Eq)]
pub enum Value {
    String(String),
    Integer(i64),
    Float,
    Boolean(bool),
    Datetime,
    Array(Vec<Value>),
    /// A table: its keys, each with its value. Where a key stands more
    /// than once, its first entry counts.
    Table(Vec<(String, Value)>),
}

/// The keywords of a package, as its manifest gives them.
#[derive(Debug, Clone, PartialEq, Eq)]
pub enum Keywords {
    /// The manifest names no keywords.
    Absent,
    /// The manifest takes its keywords from its workspace.
    Inherited,
    /// The manifest lists these keywords.
    Local(Vec<String>),
}

/// What is read of a manifest's package section.
#[derive(Debug, PartialEq, Eq)]
pub struct PackageFacts {
    pub keywords: Keywords,
    pub metadata: Option<Value>,
}

/// What is read of a manifest.
#[derive(Debug, PartialEq, Eq)]
pub struct ManifestFacts {
    pub package: Option<PackageFacts>,
}

/// Why a manifest yields no orders.
#[derive(Debug, Clone, Copy, PartialEq, Eq, Structural)]
pub enum Refusal {
    /// The package is missing, or does not list the magic keyword.
    MagicKeywordMissing,
    /// The package has no metadata table with a list of orders.
    NothingOrdered,
}

/// The status and text of the answer that goes with a refusal.
pub open spec fn refusal_reply(refusal: Refusal) -> (Status, Seq<char>) {
    match refusal {
        Refusal::MagicKeywordMissing => (Status::BadRequest, "Magic keyword not provided"@),
        Refusal::NothingOrdered => (Status::NoContent, Seq::empty()),
    }
}

/// Whether the magic keyword is among the given ones.
pub open spec fn has_magic_keyword(keywords: Seq<String>) -> bool {
    exists|i: int| 0 <= i < keywords.len() && (#[trigger] keywords[i])@ == MAGIC_KEYWORD@
}

/// The value that a table holds under `key`: that of the first entry with
/// that key.
pub open spec fn entry_of(entries: Seq<(String, Value)>, key: Seq<char>) -> Option<Value>
    decreases entries.len(),
{
    if entries.len() == 0 {
        None
    } else if entries[0].0@ == key {
        Some(entries[0].1)
    } else {
        entry_of(entries.drop_first(), key)
    }
}

/// The order that a value spells out: a table with a text under `item` and
/// under `quantity` a whole number that is not negative and fits in 32
/// bits. Any other value spells out no order.
pub open spec fn order_in(value: Value) -> Option<(Seq<char>, u32)> {
    match value {
        Value::Table(entries) => match (
            entry_of(entries@, "item"@),
            entry_of(entries@, "quantity"@),
        ) {
            (Some(Value::String(item)), Some(Value::Integer(quantity))) => if 0 <= quantity
                <= u32::MAX {
                Some((item@, quantity as u32))
            } else {
                None
            },
            _ => None,
        },
        _ => None,
    }
}

/// The orders that a list of values spells out, in the order of the list;
/// values that spell out no order are passed over.
pub open spec fn orders_in(values: Seq<Value>) -> Seq<(Seq<char>, u32)>
    decreases values.len(),
{
    if values.len() == 0 {
        Seq::empty()
    } else {
        let front = orders_in(values.drop_last());
        match order_in(values.last()) {
            Some(order) => front.push(order),
            None => front,
        }
    }
}

/// The list of orders that a package's metadata holds: the list under
/// `orders` of a metadata that is a table.
pub open spec fn ordered_values(metadata: Option<Value>) -> Option<Seq<Value>> {
    match metadata {
        Some(Value::Table(entries)) => match entry_of(entries@, "orders"@) {
            Some(Value::Array(values)) => Some(values@),
            _ => None,
        },
        _ => None,
    }
}

/// What a manifest yields: its orders; or the reason why it has none. The
/// keyword is looked for first, the list of orders second.
pub open spec fn manifest_yield(manifest: ManifestFacts) -> Result<Seq<(Seq<char>, u32)>, Refusal> {
    match manifest.package {
        Some(package) => match package.keywords {
            Keywords::Local(keywords) => if has_magic_keyword(keywords@) {
                match ordered_values(package.metadata) {
                    Some(values) => Ok(orders_in(values)),
                    None => Err(Refusal::NothingOrdered),
                }
            } else {
                Err(Refusal::MagicKeywordMissing)
            },
            _ => Err(Refusal::MagicKeywordMissing),
        },
        None => Err(Refusal::MagicKeywordMissing),
    }
}

/// The value that a table holds under `key`.
fn lookup<'a>(entries: &'a Vec<(String, Value)>, key: &str) -> (found: Option<&'a Value>)
    ensures
        match found {
            Some(value) => entry_of(entries@, key@) == Some(*value),
            None => entry_of(entries@, key@) is None,
        },
{
    let mut i: usize = 0;
    proof {
        assert(entries@.skip(0) =~= entries@);
    }
    while i < entries.len()
        invariant
            i <= entries.len(),
            entry_of(entries@, key@) == entry_of(entries@.skip(i as int), key@),
        decreases entries.len() - i,
    {
        proof {
            let rest = entries@.skip(i as int);
            assert(rest[0] == entries@[i as int]);
            assert(rest.drop_first() =~= entries@.skip(i + 1));
        }
        if same_text(entries[i].0.as_str(), key) {
            return Some(&entries[i].1);
        }
        i += 1;
    }
    None
}

/// Whether the magic keyword is among the given ones.
fn lists_magic_keyword(keywords: &Vec<String>) -> (found: bool)
    ensures
        found == has_magic_keyword(keywords@),
{
    let mut i: usize = 0;
    while i < keywords.len()
        invariant
            i <= keywords.len(),
            forall|j: int| 0 <= j < i ==> (#[trigger] keywords@[j])@ != MAGIC_KEYWORD@,
        decreases keywords.len() - i,
    {
        if same_text(keywords[i].as_str(), MAGIC_KEYWORD) {
            return true;
        }
        i += 1;
    }
    false
}

impl View for Order {
    type V = (Seq<char>, u32);

    open spec fn view(&self) -> (Seq<char>, u32) {
        (self.item@, self.quantity)
    }
}

/// What each of the given orders says.
pub open spec fn order_views(orders: Seq<Order>) -> Seq<(Seq<char>, u32)> {
    Seq::new(orders.len(), |i: int| orders[i]@)
}

impl Order {
    /// The order that a value of a manifest spells out, if it spells one out.
    pub fn from_value(value: &Value) -> (order: Option<Order>)
        ensures
            match order {
                Some(order) => order_in(*value) == Some(order@),
                None => order_in(*value) is None,
            },
    {
        let entries = match value {
            Value::Table(entries) => entries,
            _ => {
                return None;
            },
        };
        let item = match lookup(entries, "item") {
            Some(Value::String(item)) => item,
            _ => {
                return None;
            },
        };
        let quantity = match lookup(entries, "quantity") {
            Some(Value::Integer(quantity)) => *quantity,
            _ => {
                return None;
            },
        };
        if quantity < 0 || quantity > 0xffff_ffff {
            return None;
        }
        Some(Order::new(item.clone(), quantity as u32))
    }
}

/// The orders of one manifest, in the order in which it lists them.
#[derive(Debug, Clone)]
pub struct Metadata {
    pub orders: Vec<Order>,
}

impl Metadata {
    /// The metadata that holds the given orders.
    pub fn new(orders: Vec<Order>) -> (metadata: Self)
        ensures
            metadata.orders == orders,
    {
        Self { orders }
    }

    /// Adds an order of `quantity` pieces of `item` behind the others.
    pub fn add_order(&mut self, item: String, quantity: u32)
        ensures
            final(self).orders@ == old(self).orders@.push(Order { item, quantity }),
    {
        self.orders.push(Order::new(item, quantity));
    }

    /// Reads the orders of a manifest.
    ///
    /// A manifest without a package, or whose package does not itself list
    /// the magic keyword, is refused for want of the keyword. One whose
    /// metadata is no table, or has no list under `orders`, is refused for
    /// want of content. Of the entries of the list, those that are a table
    /// with a text under `item` and a number that fits under `quantity`
    /// become orders, in their order; the others are passed over.
    pub fn from_manifest(manifest: &ManifestFacts) -> (result: Result<Metadata, Reply>)
        ensures
            match result {
                Ok(metadata) => manifest_yield(*manifest) == Ok::<Seq<(Seq<char>, u32)>, Refusal>(
                    order_views(metadata.orders@),
                ),
                Err(reply) => manifest_yield(*manifest) is Err && (reply.status, reply.body@)
                    == refusal_reply(manifest_yield(*manifest)->Err_0),
            },
    {
        let package = match &manifest.package {
            Some(package) => package,
            None => {
                return Err(magic_keyword_not_provided());
            },
        };
        let keywords = match &package.keywords {
            Keywords::Local(keywords) => keywords,
            _ => {
                return Err(magic_keyword_not_provided());
            },
        };
        if !lists_magic_keyword(keywords) {
            return Err(magic_keyword_not_provided());
        }
        let entries = match &package.metadata {
            Some(Value::Table(entries)) => entries,
            _ => {
                return Err(no_content());
            },
        };
        let values = match lookup(entries, "orders") {
            Some(Value::Array(values)) => values,
            _ => {
                return Err(no_content());
            },
        };
        let mut metadata = Metadata::new(Vec::new());
        let mut i: usize = 0;
        while i < values.len()
            invariant
                i <= values.len(),
                order_views(metadata.orders@) == orders_in(values@.take(i as int)),
            decreases values.len() - i,
        {
            proof {
                let seen = values@.take(i as int);
                let more = values@.take(i + 1);
                assert(more.drop_last() =~= seen);
                assert(more.last() == values@[i as int]);
            }
            match Order::from_value(&values[i]) {
                Some(order) => {
                    let ghost before = metadata.orders@;
                    let ghost said = order@;
                    metadata.add_order(order.item, order.quantity);
                    proof {
                        assert(order_views(metadata.orders@) =~= order_views(before).push(said));
                    }
                },
                None => {},
            }
            i += 1;
        }
        proof {
            assert(values@.take(values.len() as int) =~= values@);
        }
        Ok(metadata)
    }

    /// The text that shows the orders: one line for each, a line end
    /// between each two.
    pub fn text(&self) -> (text: String)
        ensures
            text@ == orders_text(self.orders@),
    {
        let mut lines: Vec<String> = Vec::new();
        let mut i: usize = 0;
        while i < self.orders.len()
            invariant
                i <= self.orders.len(),
                lines@.len() == i,
                forall|j: int|
                    0 <= j < i ==> (#[trigger] lines@[j])@ == order_line(self.orders@[j]),
            decreases self.orders.len() - i,
        {
            lines.push(self.orders[i].line());
            i += 1;
        }
        proof {
            assert(texts_of(lines@) =~= order_lines(self.orders@));
        }
        join_lines(&lines)
    }
}

} // verus!
