//! The receipt domain types and their structural extraction from a
//! parsed JSON document.
//!
//! A `Receipt` is a pure transcription of validated input: every field of
//! the source document is carried over verbatim, every line item in its
//! original order. The extraction fails closed: a missing field, a field
//! of the wrong kind, or an `items` value that is not an array is a
//! structural mismatch.

use crate::json::{deep_list, Json, JsonModel};
use vstd::prelude::*;
use vstd::string::StringExecFns;

verus! {

/// One purchased line item.
pub struct Item {
    pub short_description: String,
    pub price: String,
}

/// One purchase transaction. Immutable once constructed; `items` keeps
/// the order of the source array.
pub struct Receipt {
    pub retailer: String,
    pub purchase_date: String,
    pub purchase_time: String,
    pub items: Vec<Item>,
    pub total: String,
}

/// Why ingestion failed, for a request whose content type matched.
pub enum Error {
    /// The body produced more bytes than the configured limit allows.
    PayloadTooLarge,
    /// The body is not syntactically valid JSON.
    MalformedJson,
    /// The JSON parsed but does not have the required object shape.
    StructuralMismatch,
    /// The transport failed while reading the body; carries the cause.
    IoFailure(String),
}

/// What the guard decides for one request.
pub enum Outcome {
    /// Content type matched, body within the limit, shape complete.
    Accept(Receipt),
    /// The declared content type is not JSON's: not this guard's payload.
    Forward,
    /// Content type matched but the body was refused.
    Reject(Error),
}

/// The mathematical value of an `Item`.
#[verifier::ext_equal]
pub struct ItemModel {
    pub short_description: Seq<char>,
    pub price: Seq<char>,
}

/// The mathematical value of a `Receipt`.
#[verifier::ext_equal]
pub struct ReceiptModel {
    pub retailer: Seq<char>,
    pub purchase_date: Seq<char>,
    pub purchase_time: Seq<char>,
    pub items: Seq<ItemModel>,
    pub total: Seq<char>,
}

/// The mathematical value of an `Error`.
pub enum ErrorModel {
    PayloadTooLarge,
    MalformedJson,
    StructuralMismatch,
    IoFailure(Seq<char>),
}

/// The mathematical value of an `Outcome`.
pub enum OutcomeModel {
    Accept(ReceiptModel),
    Forward,
    Reject(ErrorModel),
}

impl View for Item {
    type V = ItemModel;

    open spec fn view(&self) -> ItemModel {
        ItemModel { short_description: self.short_description@, price: self.price@ }
    }
}

impl View for Receipt {
    type V = ReceiptModel;

    open spec fn view(&self) -> ReceiptModel {
        ReceiptModel {
            retailer: self.retailer@,
            purchase_date: self.purchase_date@,
            purchase_time: self.purchase_time@,
            items: Seq::new(self.items@.len(), |i: int| self.items@[i]@),
            total: self.total@,
        }
    }
}

impl View for Error {
    type V = ErrorModel;

    open spec fn view(&self) -> ErrorModel {
        match self {
            Error::PayloadTooLarge => ErrorModel::PayloadTooLarge,
            Error::MalformedJson => ErrorModel::MalformedJson,
            Error::StructuralMismatch => ErrorModel::StructuralMismatch,
            Error::IoFailure(cause) => ErrorModel::IoFailure(cause@),
        }
    }
}

impl View for Outcome {
    type V = OutcomeModel;

    open spec fn view(&self) -> OutcomeModel {
        match self {
            Outcome::Accept(receipt) => OutcomeModel::Accept(receipt@),
            Outcome::Forward => OutcomeModel::Forward,
            Outcome::Reject(error) => OutcomeModel::Reject(error@),
        }
    }
}

/// The item a document describes: both fields present and JSON strings.
pub open spec fn item_model_of(j: JsonModel) -> Option<ItemModel> {
    match (j.field("short_description"@), j.field("price"@)) {
        (
            Some(JsonModel::Text(short_description)),
            Some(JsonModel::Text(price)),
        ) => Some(ItemModel { short_description, price }),
        _ => None,
    }
}

/// Every element of the `items` array describes an item.
pub open spec fn items_all_valid(elems: Seq<JsonModel>) -> bool {
    forall|i: int| 0 <= i < elems.len() ==> item_model_of(elems[i]) is Some
}

/// The items of the `items` array, one per element, in the array's order.
pub open spec fn item_models_of(elems: Seq<JsonModel>) -> Seq<ItemModel> {
    Seq::new(elems.len(), |i: int| item_model_of(elems[i])->0)
}

/// The receipt a document describes: `None` unless the document is an
/// object with the four scalar fields as JSON strings, `items` an array,
/// and every array element a complete item.
pub open spec fn receipt_model_of(j: JsonModel) -> Option<ReceiptModel> {
    match (
        j.field("retailer"@),
        j.field("purchase_date"@),
        j.field("purchase_time"@),
        j.field("items"@),
        j.field("total"@),
    ) {
        (
            Some(JsonModel::Text(retailer)),
            Some(JsonModel::Text(purchase_date)),
            Some(JsonModel::Text(purchase_time)),
            Some(JsonModel::Array(elems)),
            Some(JsonModel::Text(total)),
        ) => if items_all_valid(elems) {
            Some(
                ReceiptModel {
                    retailer,
                    purchase_date,
                    purchase_time,
                    items: item_models_of(elems),
                    total,
                },
            )
        } else {
            None
        },
        _ => None,
    }
}

/// Order preservation: a receipt read out of a document holds exactly
/// one item per element of the source `items` array, each item the one
/// its element describes, in the array's order.
pub proof fn lemma_order_preservation(doc: JsonModel, elems: Seq<JsonModel>, m: ReceiptModel)
    requires
        receipt_model_of(doc) == Some(m),
        doc.field("items"@) == Some(JsonModel::Array(elems)),
    ensures
        m.items.len() == elems.len(),
        forall|i: int| 0 <= i < elems.len() ==> Some(m.items[i]) == item_model_of(elems[i]),
{
}

impl Item {
    /// Reads one element of the `items` array. Both fields must be
    /// present and be JSON strings; anything else is a mismatch.
    pub fn from_json(j: &Json) -> (r: Result<Item, Error>)
        ensures
            r matches Ok(item) ==> item_model_of(j.deep()) == Some(item@),
            r matches Err(e) ==> item_model_of(j.deep()) is None && e is StructuralMismatch,
    {
        let key = String::from_str("short_description");
        let short_description = match j.get(&key) {
            Some(v) => match v.as_text() {
                Some(s) => s.clone(),
                None => return Err(Error::StructuralMismatch),
            },
            None => return Err(Error::StructuralMismatch),
        };
        let key = String::from_str("price");
        let price = match j.get(&key) {
            Some(v) => match v.as_text() {
                Some(s) => s.clone(),
                None => return Err(Error::StructuralMismatch),
            },
            None => return Err(Error::StructuralMismatch),
        };
        Ok(Item { short_description, price })
    }
}

impl Receipt {
    /// Reads the receipt shape out of a parsed document, field by field,
    /// and the items in the order the array gives them.
    #[verifier::loop_isolation(false)]
    pub fn from_json(j: &Json) -> (r: Result<Receipt, Error>)
        ensures
            r matches Ok(receipt) ==> receipt_model_of(j.deep()) == Some(receipt@),
            r matches Err(e) ==> receipt_model_of(j.deep()) is None && e is StructuralMismatch,
    {
        let key = String::from_str("retailer");
        let retailer = match j.get(&key) {
            Some(v) => match v.as_text() {
                Some(s) => s.clone(),
                None => return Err(Error::StructuralMismatch),
            },
            None => return Err(Error::StructuralMismatch),
        };
        let key = String::from_str("purchase_date");
        let purchase_date = match j.get(&key) {
            Some(v) => match v.as_text() {
                Some(s) => s.clone(),
                None => return Err(Error::StructuralMismatch),
            },
            None => return Err(Error::StructuralMismatch),
        };
        let key = String::from_str("purchase_time");
        let purchase_time = match j.get(&key) {
            Some(v) => match v.as_text() {
                Some(s) => s.clone(),
                None => return Err(Error::StructuralMismatch),
            },
            None => return Err(Error::StructuralMismatch),
        };
        let key = String::from_str("total");
        let total = match j.get(&key) {
            Some(v) => match v.as_text() {
                Some(s) => s.clone(),
                None => return Err(Error::StructuralMismatch),
            },
            None => return Err(Error::StructuralMismatch),
        };
        let key = String::from_str("items");
        let elems = match j.get(&key) {
            Some(v) => match v.as_array() {
                Some(a) => a,
                None => return Err(Error::StructuralMismatch),
            },
            None => return Err(Error::StructuralMismatch),
        };
        proof {
            crate::json::lemma_deep_list(elems@);
        }
        let ghost elem_models = deep_list(elems@);
        let mut items: Vec<Item> = Vec::new();
        let n = elems.len();
        for i in 0..n
            invariant
                items@.len() == i,
                forall|k: int|
                    0 <= k < i ==> item_model_of(elem_models[k]) == Some(items@[k]@),
        {
            let item = match Item::from_json(&elems[i]) {
                Ok(item) => item,
                Err(e) => {
                    proof {
                        assert(!items_all_valid(elem_models)) by {
                            assert(item_model_of(elem_models[i as int]) is None);
                        }
                    }
                    return Err(e);
                },
            };
            items.push(item);
        }
        let receipt = Receipt { retailer, purchase_date, purchase_time, items, total };
        proof {
            assert(receipt@.items =~= item_models_of(elem_models));
        }
        Ok(receipt)
    }
}

} // verus!
