//! Structured responses: a receipt rendered back to JSON text, byte for
//! byte as its specification says.
//!
//! The renderer writes the five receipt fields under their wire names,
//! every string quoted and escaped, every item in order. `receipt_to_json`
//! is the document the rendered text denotes, and reading that document
//! back yields the same receipt: the round trip is an identity.

use crate::json::{lookup_field, JsonModel};
use crate::receipt::{
    item_model_of, item_models_of, items_all_valid, receipt_model_of, Item, ItemModel, Receipt,
    ReceiptModel,
};
use vstd::prelude::*;
use vstd::string::{StringExecFns, StringSliceAdditionalSpecFns};
use vstd::utf8::encode_utf8;

verus! {

/// The byte of the hex digit for `n`, lower case.
pub open spec fn hex_digit(n: u8) -> u8
    recommends
        n < 16,
{
    if n < 10 {
        (n + 0x30) as u8
    } else {
        (n + 0x57) as u8
    }
}

/// How one byte of string content appears in JSON text: quote and
/// backslash escaped, control bytes as `\u00XX`, all else verbatim.
pub open spec fn escape_byte(b: u8) -> Seq<u8> {
    if b == 0x22 || b == 0x5c {
        seq![0x5cu8, b]
    } else if b < 0x20 {
        seq![0x5cu8, 0x75u8, 0x30u8, 0x30u8, hex_digit(b / 16), hex_digit(b % 16)]
    } else {
        seq![b]
    }
}

/// String content escaped byte by byte.
pub open spec fn escape_bytes(s: Seq<u8>) -> Seq<u8>
    decreases s.len(),
{
    if s.len() == 0 {
        Seq::empty()
    } else {
        escape_byte(s[0]) + escape_bytes(s.drop_first())
    }
}

/// A JSON string: quotes around the escaped content.
pub open spec fn quoted(s: Seq<u8>) -> Seq<u8> {
    seq![0x22u8] + escape_bytes(s) + seq![0x22u8]
}

proof fn lemma_escape_bytes_snoc(s: Seq<u8>, b: u8)
    ensures
        escape_bytes(s.push(b)) == escape_bytes(s) + escape_byte(b),
    decreases s.len(),
{
    if s.len() == 0 {
        let t = s.push(b);
        assert(t.drop_first() =~= Seq::<u8>::empty());
        assert(escape_bytes(t) == escape_byte(b) + escape_bytes(t.drop_first()));
        assert(escape_bytes(t) =~= escape_byte(b));
        assert(escape_bytes(s) + escape_byte(b) =~= escape_byte(b));
    } else {
        assert(s.push(b).drop_first() =~= s.drop_first().push(b));
        lemma_escape_bytes_snoc(s.drop_first(), b);
        assert(escape_bytes(s.push(b)) =~= escape_bytes(s) + escape_byte(b));
    }
}

fn push_bytes(out: &mut Vec<u8>, piece: &[u8])
    ensures
        final(out)@ == old(out)@ + piece@,
{
    let n = piece.len();
    for i in 0..n
        invariant
            n == piece@.len(),
            out@ == old(out)@ + piece@.take(i as int),
    {
        out.push(piece[i]);
        proof {
            assert(piece@.take(i + 1) =~= piece@.take(i as int).push(piece@[i as int]));
            assert(out@ =~= old(out)@ + piece@.take(i + 1));
        }
    }
    proof {
        assert(piece@.take(n as int) =~= piece@);
    }
}

fn push_escaped_byte(out: &mut Vec<u8>, b: u8)
    ensures
        final(out)@ == old(out)@ + escape_byte(b),
{
    if b == 0x22 || b == 0x5c {
        out.push(0x5c);
        out.push(b);
        proof {
            assert(out@ =~= old(out)@ + escape_byte(b));
        }
    } else if b < 0x20 {
        out.push(0x5c);
        out.push(0x75);
        out.push(0x30);
        out.push(0x30);
        let hi = b / 16;
        let lo = b % 16;
        out.push(if hi < 10 { hi + 0x30 } else { hi + 0x57 });
        out.push(if lo < 10 { lo + 0x30 } else { lo + 0x57 });
        proof {
            assert(out@ =~= old(out)@ + escape_byte(b));
        }
    } else {
        out.push(b);
        proof {
            assert(out@ =~= old(out)@ + escape_byte(b));
        }
    }
}

#[verifier::loop_isolation(false)]
fn push_quoted(out: &mut Vec<u8>, s: &str)
    ensures
        final(out)@ == old(out)@ + quoted(s.spec_bytes()),
{
    out.push(0x22);
    let bytes = s.as_bytes();
    let n = bytes.len();
    for i in 0..n
        invariant
            out@ == old(out)@ + seq![0x22u8] + escape_bytes(bytes@.take(i as int)),
    {
        proof {
            assert(bytes@.take(i + 1) =~= bytes@.take(i as int).push(bytes@[i as int]));
            lemma_escape_bytes_snoc(bytes@.take(i as int), bytes@[i as int]);
        }
        push_escaped_byte(out, bytes[i]);
        proof {
            assert(out@ =~= old(out)@ + seq![0x22u8] + escape_bytes(bytes@.take(i + 1)));
        }
    }
    out.push(0x22);
    proof {
        assert(bytes@.take(n as int) =~= bytes@);
        assert(out@ =~= old(out)@ + quoted(s.spec_bytes()));
    }
}

/// One item as JSON text bytes: its two fields under their wire names.
pub open spec fn item_json_bytes(item: ItemModel) -> Seq<u8> {
    "{\"short_description\":".spec_bytes() + quoted(encode_utf8(item.short_description))
        + ",\"price\":".spec_bytes() + quoted(encode_utf8(item.price)) + "}".spec_bytes()
}

/// The items as the comma-separated inside of a JSON array.
pub open spec fn items_json_bytes(items: Seq<ItemModel>) -> Seq<u8>
    decreases items.len(),
{
    if items.len() == 0 {
        Seq::empty()
    } else if items.len() == 1 {
        item_json_bytes(items[0])
    } else {
        item_json_bytes(items[0]) + ",".spec_bytes() + items_json_bytes(items.drop_first())
    }
}

/// A receipt as JSON text bytes: the five fields under their wire names,
/// the items in order.
pub open spec fn receipt_json_bytes(m: ReceiptModel) -> Seq<u8> {
    "{\"retailer\":".spec_bytes() + quoted(encode_utf8(m.retailer)) + ",\"purchase_date\":".spec_bytes()
        + quoted(encode_utf8(m.purchase_date)) + ",\"purchase_time\":".spec_bytes() + quoted(
        encode_utf8(m.purchase_time),
    ) + ",\"items\":[".spec_bytes() + items_json_bytes(m.items) + "],\"total\":".spec_bytes()
        + quoted(encode_utf8(m.total)) + "}".spec_bytes()
}

proof fn lemma_items_json_bytes_snoc(items: Seq<ItemModel>, item: ItemModel)
    ensures
        items_json_bytes(items.push(item)) == if items.len() == 0 {
            item_json_bytes(item)
        } else {
            items_json_bytes(items) + ",".spec_bytes() + item_json_bytes(item)
        },
    decreases items.len(),
{
    let s = items.push(item);
    if items.len() == 0 {
        assert(s.len() == 1 && s[0] == item);
    } else {
        assert(s.drop_first() =~= items.drop_first().push(item));
        lemma_items_json_bytes_snoc(items.drop_first(), item);
        if items.len() == 1 {
            assert(items_json_bytes(s) =~= items_json_bytes(items) + ",".spec_bytes()
                + item_json_bytes(item));
        } else {
            assert(items_json_bytes(s) =~= items_json_bytes(items) + ",".spec_bytes()
                + item_json_bytes(item));
        }
    }
}

fn push_item(out: &mut Vec<u8>, item: &Item)
    ensures
        final(out)@ == old(out)@ + item_json_bytes(item@),
{
    push_bytes(out, "{\"short_description\":".as_bytes());
    push_quoted(out, item.short_description.as_str());
    push_bytes(out, ",\"price\":".as_bytes());
    push_quoted(out, item.price.as_str());
    push_bytes(out, "}".as_bytes());
    proof {
        assert(out@ =~= old(out)@ + item_json_bytes(item@));
    }
}

/// The response body for an accepted receipt: the receipt rendered back
/// to JSON text, every field value verbatim.
#[verifier::loop_isolation(false)]
pub fn process_receipt(receipt: &Receipt) -> (r: Vec<u8>)
    ensures
        r@ == receipt_json_bytes(receipt@),
{
    let mut out: Vec<u8> = Vec::new();
    push_bytes(&mut out, "{\"retailer\":".as_bytes());
    push_quoted(&mut out, receipt.retailer.as_str());
    push_bytes(&mut out, ",\"purchase_date\":".as_bytes());
    push_quoted(&mut out, receipt.purchase_date.as_str());
    push_bytes(&mut out, ",\"purchase_time\":".as_bytes());
    push_quoted(&mut out, receipt.purchase_time.as_str());
    push_bytes(&mut out, ",\"items\":[".as_bytes());
    let ghost head = out@;
    let ghost models = receipt@.items;
    let n = receipt.items.len();
    for i in 0..n
        invariant
            out@ == head + items_json_bytes(models.take(i as int)),
    {
        if i > 0 {
            push_bytes(&mut out, ",".as_bytes());
        }
        push_item(&mut out, &receipt.items[i]);
        proof {
            assert(models.take(i + 1) =~= models.take(i as int).push(models[i as int]));
            lemma_items_json_bytes_snoc(models.take(i as int), models[i as int]);
            assert(out@ =~= head + items_json_bytes(models.take(i + 1)));
        }
    }
    push_bytes(&mut out, "],\"total\":".as_bytes());
    push_quoted(&mut out, receipt.total.as_str());
    push_bytes(&mut out, "}".as_bytes());
    proof {
        assert(models.take(n as int) =~= models);
        assert(out@ =~= receipt_json_bytes(receipt@));
    }
    out
}

/// The document the rendered text of one item denotes.
pub open spec fn item_to_json(item: ItemModel) -> JsonModel {
    JsonModel::Object(
        seq![
            ("short_description"@, JsonModel::Text(item.short_description)),
            ("price"@, JsonModel::Text(item.price)),
        ],
    )
}

/// The document the rendered text of a receipt denotes: the five fields
/// under their wire names, the items in order.
pub open spec fn receipt_to_json(m: ReceiptModel) -> JsonModel {
    JsonModel::Object(
        seq![
            ("retailer"@, JsonModel::Text(m.retailer)),
            ("purchase_date"@, JsonModel::Text(m.purchase_date)),
            ("purchase_time"@, JsonModel::Text(m.purchase_time)),
            (
                "items"@,
                JsonModel::Array(Seq::new(m.items.len(), |i: int| item_to_json(m.items[i]))),
            ),
            ("total"@, JsonModel::Text(m.total)),
        ],
    )
}

proof fn lemma_item_round_trip(item: ItemModel)
    ensures
        item_model_of(item_to_json(item)) == Some(item),
{
    reveal_strlit("short_description");
    reveal_strlit("price");
    reveal_with_fuel(lookup_field, 3);
    let fields = seq![
        ("short_description"@, JsonModel::Text(item.short_description)),
        ("price"@, JsonModel::Text(item.price)),
    ];
    assert("short_description"@.len() == 17);
    assert("price"@.len() == 5);
    assert(fields[0] == ("short_description"@, JsonModel::Text(item.short_description)));
    assert(fields[1] == ("price"@, JsonModel::Text(item.price)));
    assert(lookup_field(fields, "short_description"@) == Some(
        JsonModel::Text(item.short_description),
    ));
    assert(fields[0].0 != "price"@);
    assert(fields.drop_first() =~= seq![("price"@, JsonModel::Text(item.price))]);
    assert(lookup_field(fields, "price"@) == Some(JsonModel::Text(item.price)));
    assert(item_model_of(item_to_json(item))->0 =~= item);
}

/// Round-trip identity: the document a receipt renders to describes that
/// same receipt — reading it back changes no field and no item.
pub proof fn lemma_round_trip(m: ReceiptModel)
    ensures
        receipt_model_of(receipt_to_json(m)) == Some(m),
{
    reveal_strlit("retailer");
    reveal_strlit("purchase_date");
    reveal_strlit("purchase_time");
    reveal_strlit("items");
    reveal_strlit("total");
    reveal_with_fuel(lookup_field, 6);
    assert("retailer"@.len() == 8);
    assert("purchase_date"@.len() == 13);
    assert("purchase_time"@.len() == 13);
    assert("items"@.len() == 5);
    assert("total"@.len() == 5);
    assert("purchase_date"@[9] == 'd' && "purchase_time"@[9] == 't');
    assert("items"@[0] == 'i' && "total"@[0] == 't');
    let elems = Seq::new(m.items.len(), |i: int| item_to_json(m.items[i]));
    let f0 = seq![
        ("retailer"@, JsonModel::Text(m.retailer)),
        ("purchase_date"@, JsonModel::Text(m.purchase_date)),
        ("purchase_time"@, JsonModel::Text(m.purchase_time)),
        ("items"@, JsonModel::Array(elems)),
        ("total"@, JsonModel::Text(m.total)),
    ];
    let f1 = f0.drop_first();
    let f2 = f1.drop_first();
    let f3 = f2.drop_first();
    let f4 = f3.drop_first();
    assert(f1 =~= seq![
        ("purchase_date"@, JsonModel::Text(m.purchase_date)),
        ("purchase_time"@, JsonModel::Text(m.purchase_time)),
        ("items"@, JsonModel::Array(elems)),
        ("total"@, JsonModel::Text(m.total)),
    ]);
    assert(f2 =~= seq![
        ("purchase_time"@, JsonModel::Text(m.purchase_time)),
        ("items"@, JsonModel::Array(elems)),
        ("total"@, JsonModel::Text(m.total)),
    ]);
    assert(f3 =~= seq![
        ("items"@, JsonModel::Array(elems)),
        ("total"@, JsonModel::Text(m.total)),
    ]);
    assert(f4 =~= seq![("total"@, JsonModel::Text(m.total))]);
    assert(lookup_field(f0, "retailer"@) == Some(JsonModel::Text(m.retailer)));
    assert(lookup_field(f0, "purchase_date"@) == Some(JsonModel::Text(m.purchase_date)));
    assert(lookup_field(f0, "purchase_time"@) == Some(JsonModel::Text(m.purchase_time)));
    assert(lookup_field(f0, "items"@) == Some(JsonModel::Array(elems)));
    assert(lookup_field(f0, "total"@) == Some(JsonModel::Text(m.total)));
    assert forall|i: int| 0 <= i < elems.len() implies item_model_of(elems[i]) == Some(
        m.items[i],
    ) by {
        lemma_item_round_trip(m.items[i]);
    }
    assert(items_all_valid(elems));
    assert(item_models_of(elems) =~= m.items);
    assert(receipt_model_of(receipt_to_json(m))->0 =~= m);
}

/// The response body for a points lookup: echoes the identifier, since
/// no points have ever been computed or stored for any receipt.
pub fn get_receipt_points(id: String) -> (r: String)
    ensures
        r@ == "Receipt ID: "@ + id@,
{
    let prefix = String::from_str("Receipt ID: ");
    prefix.concat(id.as_str())
}

} // verus!
