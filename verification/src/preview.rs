//! The texts that show a pending request before it is sent.

use crate::field::FieldPair;
use crate::paint::{paint, styled, Tint};
use crate::text::joined;
use vstd::prelude::*;

verus! {

/// One field as it is shown: `key: value`.
pub open spec fn field_text(pair: (Seq<char>, Seq<char>), color: bool) -> Seq<char> {
    styled(Tint::Cyan, pair.0, color) + ": "@ + styled(Tint::BrightGreen, pair.1, color)
}

/// The fields as they are shown, one text for each and in their order.
pub open spec fn field_texts(fields: Seq<(Seq<char>, Seq<char>)>, color: bool) -> Seq<Seq<char>> {
    Seq::new(fields.len(), |i: int| field_text(fields[i], color))
}

/// The fields on one line: `key: value, key: value`.
pub open spec fn fields_text(fields: Seq<(Seq<char>, Seq<char>)>, color: bool) -> Seq<char> {
    joined(field_texts(fields, color), ", "@)
}

/// The line that shows the fields.
pub open spec fn fields_line(fields: Seq<(Seq<char>, Seq<char>)>, color: bool) -> Seq<char> {
    "fields: "@ + fields_text(fields, color) + "\n"@
}

/// The two lines that show a schema id and a view id.
pub open spec fn ids_lines(schema_id: Seq<char>, view_id: Seq<char>, color: bool) -> Seq<char> {
    "schema_id: "@ + styled(Tint::Magenta, schema_id, color) + "\nview_id: "@ + styled(
        Tint::Yellow,
        view_id,
        color,
    ) + "\n"@
}

/// What is shown before a schema is created.
pub open spec fn create_schema_text(
    name: Seq<char>,
    description: Seq<char>,
    fields: Seq<(Seq<char>, Seq<char>)>,
    color: bool,
) -> Seq<char> {
    "Creating schema...\nname: "@ + styled(Tint::Magenta, name, color) + "\ndescription: "@
        + styled(Tint::Yellow, description, color) + "\n"@ + fields_line(fields, color) + "\n"@
}

/// What is shown before an instance is created.
pub open spec fn create_instance_text(
    schema_id: Seq<char>,
    fields: Seq<(Seq<char>, Seq<char>)>,
    color: bool,
) -> Seq<char> {
    "Creating instance...\nschema_id: "@ + styled(Tint::Magenta, schema_id, color) + "\n"@
        + fields_line(fields, color) + "\n"@
}

/// What is shown before an instance is updated.
pub open spec fn update_instance_text(
    schema_id: Seq<char>,
    view_id: Seq<char>,
    fields: Seq<(Seq<char>, Seq<char>)>,
    color: bool,
) -> Seq<char> {
    "Updating instance...\n"@ + ids_lines(schema_id, view_id, color) + fields_line(fields, color)
        + "\n"@
}

/// What is shown before an instance is deleted.
pub open spec fn delete_instance_text(
    schema_id: Seq<char>,
    view_id: Seq<char>,
    color: bool,
) -> Seq<char> {
    "Deleting instance...\n"@ + ids_lines(schema_id, view_id, color) + "\n"@
}

/// Renders one field as `key: value`.
pub fn render_field(pair: &FieldPair, color: bool) -> (r: String)
    ensures
        r@ == field_text(pair@, color),
{
    let mut out = paint(Tint::Cyan, pair.key.as_str(), color);
    out.append(": ");
    let value = paint(Tint::BrightGreen, pair.value.as_str(), color);
    out.append(value.as_str());
    out
}

/// Renders the fields on one line, in their order, with `, ` between each
/// two neighbours.
pub fn join_fields(fields: &[FieldPair], color: bool) -> (r: String)
    ensures
        r@ == fields_text(fields.deep_view(), color),
{
    let ghost items = field_texts(fields.deep_view(), color);
    let mut out = String::new();
    let mut i: usize = 0;
    while i < fields.len()
        invariant
            i <= fields.len(),
            items == field_texts(fields.deep_view(), color),
            out@ == joined(items.take(i as int), ", "@),
        decreases fields.len() - i,
    {
        if i > 0 {
            out.append(", ");
        }
        let item = render_field(&fields[i], color);
        out.append(item.as_str());
        proof {
            assert(items.take(i + 1).drop_last() =~= items.take(i as int));
        }
        i = i + 1;
    }
    proof {
        assert(items.take(fields.len() as int) =~= items);
    }
    out
}

/// Renders the line that shows the fields.
pub fn render_fields(fields: &[FieldPair], color: bool) -> (r: String)
    ensures
        r@ == fields_line(fields.deep_view(), color),
{
    let mut out = "fields: ".to_owned();
    let listing = join_fields(fields, color);
    out.append(listing.as_str());
    out.append("\n");
    out
}

fn render_ids(schema_id: &str, view_id: &str, color: bool) -> (r: String)
    ensures
        r@ == ids_lines(schema_id@, view_id@, color),
{
    let mut out = "schema_id: ".to_owned();
    let schema = paint(Tint::Magenta, schema_id, color);
    out.append(schema.as_str());
    out.append("\nview_id: ");
    let view = paint(Tint::Yellow, view_id, color);
    out.append(view.as_str());
    out.append("\n");
    out
}

/// Renders what is shown before a schema is created.
pub fn render_create_schema(
    name: &str,
    description: &str,
    fields: &[FieldPair],
    color: bool,
) -> (r: String)
    ensures
        r@ == create_schema_text(name@, description@, fields.deep_view(), color),
{
    let mut out = "Creating schema...\nname: ".to_owned();
    let shown_name = paint(Tint::Magenta, name, color);
    out.append(shown_name.as_str());
    out.append("\ndescription: ");
    let shown_description = paint(Tint::Yellow, description, color);
    out.append(shown_description.as_str());
    out.append("\n");
    let line = render_fields(fields, color);
    out.append(line.as_str());
    out.append("\n");
    out
}

/// Renders what is shown before an instance is created.
pub fn render_create_instance(schema_id: &str, fields: &[FieldPair], color: bool) -> (r: String)
    ensures
        r@ == create_instance_text(schema_id@, fields.deep_view(), color),
{
    let mut out = "Creating instance...\nschema_id: ".to_owned();
    let schema = paint(Tint::Magenta, schema_id, color);
    out.append(schema.as_str());
    out.append("\n");
    let line = render_fields(fields, color);
    out.append(line.as_str());
    out.append("\n");
    out
}

/// Renders what is shown before an instance is updated.
pub fn render_update_instance(
    schema_id: &str,
    view_id: &str,
    fields: &[FieldPair],
    color: bool,
) -> (r: String)
    ensures
        r@ == update_instance_text(schema_id@, view_id@, fields.deep_view(), color),
{
    let mut out = "Updating instance...\n".to_owned();
    let ids = render_ids(schema_id, view_id, color);
    out.append(ids.as_str());
    let line = render_fields(fields, color);
    out.append(line.as_str());
    out.append("\n");
    out
}

/// Renders what is shown before an instance is deleted.
pub fn render_delete_instance(schema_id: &str, view_id: &str, color: bool) -> (r: String)
    ensures
        r@ == delete_instance_text(schema_id@, view_id@, color),
{
    let mut out = "Deleting instance...\n".to_owned();
    let ids = render_ids(schema_id, view_id, color);
    out.append(ids.as_str());
    out.append("\n");
    out
}

} // verus!
