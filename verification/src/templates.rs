//! Card templates: their fields, layout and request payloads.
//!
//! A template must define at least one field and one layout step, every
//! field must have a known type, every layout step a known operation on a
//! field the template defines; and on a locked template an update may
//! rename fields but never drop one or change a field's type or
//! requiredness.

use vstd::prelude::*;

use crate::decks::title_err_code;
use crate::decks::title_len_ok;
use crate::decks::validate_title;
use crate::error::AppError;
use crate::error::code_templates_fields_too_few;
use crate::error::code_templates_layout_too_few;
use crate::error::code_templates_update_locked;
use crate::error::code_unknown;

verus! {

/// A template row as stored.
#[derive(Debug)]
pub struct Template {
    pub id: i64,
    pub title: String,
    pub content: TemplateContent,
    pub is_locked: bool,
    pub created_at: i64,
    pub updated_at: Option<i64>,
}

/// The fields a template defines and the layout that presents them.
#[derive(Debug)]
pub struct TemplateContent {
    pub fields: Vec<TemplateField>,
    pub layout: Vec<TemplateLayoutItem>,
}

/// One field of a template.
#[derive(Debug)]
pub struct TemplateField {
    pub id: i64,
    pub title: String,
    pub field_type: String,
    pub is_required: bool,
}

/// One step of a template's layout: an operation applied to a field.
#[derive(Debug)]
pub struct TemplateLayoutItem {
    pub field: i64,
    pub operation: String,
}

/// Values for creating a template.
#[derive(Debug)]
pub struct InsertTemplateData {
    pub title: String,
    pub content: TemplateContent,
}

/// New values for an existing template.
#[derive(Debug)]
pub struct UpdateTemplateValues {
    pub title: String,
    pub content: TemplateContent,
}

/// An update request: the template and its new values.
#[derive(Debug)]
pub struct UpdateTemplateData {
    pub id: i64,
    pub values: UpdateTemplateValues,
}

/// A clone request: the source template and the copy's title.
#[derive(Debug)]
pub struct CloneTemplateData {
    pub title: String,
    pub source_id: i64,
}

/// A deletion request, with the template that inherits the cards.
#[derive(Debug)]
pub struct DeleteTemplateData {
    pub id: i64,
    pub successor_id: Option<i64>,
}

/// A deck that uses a template.
#[derive(Debug)]
pub struct TemplateDeck {
    pub id: i64,
    pub title: String,
}

/// Whether a field type is one the application renders.
pub open spec fn field_type_ok(t: Seq<char>) -> bool {
    t == "text"@ || t == "markdown"@
}

/// Whether a layout operation is one the application performs.
pub open spec fn operation_ok(op: Seq<char>) -> bool {
    op == "display"@ || op == "reveal"@ || op == "type"@
}

/// Whether some field of the list carries the id.
pub open spec fn has_field_id(fields: Seq<TemplateField>, id: i64) -> bool {
    exists|i: int| 0 <= i < fields.len() && (#[trigger] fields[i]).id == id
}

/// Whether the first field of the list carrying the original field's id —
/// if any — keeps its type and requiredness.
pub open spec fn first_match_keeps(orig: TemplateField, updated: Seq<TemplateField>) -> bool
    decreases updated.len(),
{
    if updated.len() == 0 {
        true
    } else if updated.first().id == orig.id {
        updated.first().field_type@ == orig.field_type@ && updated.first().is_required
            == orig.is_required
    } else {
        first_match_keeps(orig, updated.drop_first())
    }
}

/// Whether an update to a locked template keeps its fields: every
/// original field is still present, with its type and requiredness
/// unchanged (titles may change).
pub open spec fn locked_fields_ok(original: Seq<TemplateField>, updated: Seq<TemplateField>) -> bool {
    forall|i: int|
        0 <= i < original.len() ==> has_field_id(updated, (#[trigger] original[i]).id)
            && first_match_keeps(original[i], updated)
}

/// Whether a template's content is accepted, `original` being the locked
/// content an update must preserve, if any.
pub open spec fn content_ok(c: TemplateContent, original: Option<TemplateContent>) -> bool {
    c.fields@.len() > 0 && c.layout@.len() > 0 && (forall|i: int|
        0 <= i < c.fields@.len() ==> field_type_ok((#[trigger] c.fields@[i]).field_type@)) && (
    forall|i: int|
        0 <= i < c.layout@.len() ==> operation_ok((#[trigger] c.layout@[i]).operation@)) && (
    forall|i: int|
        0 <= i < c.layout@.len() ==> has_field_id(c.fields@, (#[trigger] c.layout@[i]).field))
        && match original {
        Some(orig) => locked_fields_ok(orig.fields@, c.fields@),
        None => true,
    }
}

/// The code reported for rejected content: emptiness is checked first,
/// then field types, then layout operations and references, then the
/// locked-template rules.
pub open spec fn content_err_code(c: TemplateContent, original: Option<TemplateContent>) -> Seq<
    char,
> {
    if c.fields@.len() == 0 {
        code_templates_fields_too_few()
    } else if c.layout@.len() == 0 {
        code_templates_layout_too_few()
    } else if !(forall|i: int|
        0 <= i < c.fields@.len() ==> field_type_ok((#[trigger] c.fields@[i]).field_type@)) {
        code_unknown()
    } else if !(forall|i: int|
        0 <= i < c.layout@.len() ==> operation_ok((#[trigger] c.layout@[i]).operation@)) {
        code_unknown()
    } else if !(forall|i: int|
        0 <= i < c.layout@.len() ==> has_field_id(c.fields@, (#[trigger] c.layout@[i]).field)) {
        code_unknown()
    } else {
        code_templates_update_locked()
    }
}

proof fn lemma_first_match_skip(orig: TemplateField, s: Seq<TemplateField>, j: int)
    requires
        0 <= j <= s.len(),
        forall|k: int| 0 <= k < j ==> (#[trigger] s[k]).id != orig.id,
    ensures
        first_match_keeps(orig, s) == first_match_keeps(orig, s.skip(j)),
    decreases j,
{
    if j > 0 {
        lemma_first_match_skip(orig, s, j - 1);
        assert(s.skip(j - 1).first() == s[j - 1]);
        assert(s.skip(j - 1).drop_first() =~= s.skip(j));
    } else {
        assert(s.skip(0) =~= s);
    }
}

/// Whether some field of the list carries the id.
fn fields_contain_id(fields: &Vec<TemplateField>, id: i64) -> (r: bool)
    ensures
        r == has_field_id(fields@, id),
{
    let n = fields.len();
    let mut i: usize = 0;
    while i < n
        invariant
            i <= n,
            n == fields@.len(),
            forall|j: int| 0 <= j < i ==> (#[trigger] fields@[j]).id != id,
        decreases n - i,
    {
        if fields[i].id == id {
            return true;
        }
        i += 1;
    }
    false
}

/// Whether the first updated field carrying this field's id keeps its
/// type and requiredness; absence counts as kept.
fn check_kept_field(orig_field: &TemplateField, updated: &Vec<TemplateField>) -> (r: Result<
    (),
    AppError,
>)
    ensures
        r is Ok <==> first_match_keeps(*orig_field, updated@),
        r matches Err(e) ==> e.code@ == code_templates_update_locked(),
{
    let m = updated.len();
    let mut j: usize = 0;
    while j < m
        invariant
            j <= m,
            m == updated@.len(),
            forall|k: int| 0 <= k < j ==> (#[trigger] updated@[k]).id != orig_field.id,
        decreases m - j,
    {
        if updated[j].id == orig_field.id {
            proof {
                lemma_first_match_skip(*orig_field, updated@, j as int);
                assert(updated@.skip(j as int).first() == updated@[j as int]);
            }
            let found = &updated[j];
            if !(found.field_type == orig_field.field_type) {
                return Err(
                    AppError::new(
                        "validation.templates.update-locked",
                        Some("Cannot change field type of a locked field".to_owned()),
                    ),
                );
            }
            if found.is_required != orig_field.is_required {
                return Err(
                    AppError::new(
                        "validation.templates.update-locked",
                        Some("Cannot change requiredness of a locked field".to_owned()),
                    ),
                );
            }
            return Ok(());
        }
        j += 1;
    }
    proof {
        lemma_first_match_skip(*orig_field, updated@, m as int);
        assert(updated@.skip(m as int) =~= Seq::<TemplateField>::empty());
    }
    Ok(())
}

/// Reject an update that drops a locked template's field or changes a
/// kept field's type or requiredness; dropped fields are reported first,
/// as the update's most basic fault.
pub fn validate_locked_template_fields(
    original: &Vec<TemplateField>,
    updated: &Vec<TemplateField>,
) -> (r: Result<(), AppError>)
    ensures
        r is Ok <==> locked_fields_ok(original@, updated@),
        r matches Err(e) ==> e.code@ == code_templates_update_locked(),
{
    let n = original.len();
    let mut i: usize = 0;
    while i < n
        invariant
            i <= n,
            n == original@.len(),
            forall|j: int| 0 <= j < i ==> has_field_id(updated@, (#[trigger] original@[j]).id),
        decreases n - i,
    {
        let orig_field = &original[i];
        if !fields_contain_id(updated, orig_field.id) {
            return Err(
                AppError::new(
                    "validation.templates.update-locked",
                    Some("Missing locked field".to_owned()),
                ),
            );
        }
        i += 1;
    }
    let mut i: usize = 0;
    while i < n
        invariant
            i <= n,
            n == original@.len(),
            forall|j: int| 0 <= j < n ==> has_field_id(updated@, (#[trigger] original@[j]).id),
            forall|j: int| 0 <= j < i ==> first_match_keeps(#[trigger] original@[j], updated@),
        decreases n - i,
    {
        match check_kept_field(&original[i], updated) {
            Ok(()) => {},
            Err(e) => {
                return Err(e);
            },
        }
        i += 1;
    }
    Ok(())
}

/// Reject content without fields or layout, with an unknown field type or
/// operation, with a layout step on an undefined field, or — against a
/// locked original — with its fields changed.
pub fn validate_template_content(
    content: &TemplateContent,
    original: Option<&TemplateContent>,
) -> (r: Result<(), AppError>)
    ensures
        r is Ok <==> content_ok(
            *content,
            match original {
                Some(o) => Some(*o),
                None => None,
            },
        ),
        r matches Err(e) ==> e.code@ == content_err_code(
            *content,
            match original {
                Some(o) => Some(*o),
                None => None,
            },
        ),
{
    if content.fields.is_empty() {
        return Err(AppError::new("validation.templates.fields.too-few", None));
    }
    if content.layout.is_empty() {
        return Err(AppError::new("validation.templates.layout.too-few", None));
    }
    let n = content.fields.len();
    let mut i: usize = 0;
    while i < n
        invariant
            i <= n,
            n == content.fields@.len(),
            content.fields@.len() > 0,
            content.layout@.len() > 0,
            forall|j: int|
                0 <= j < i ==> field_type_ok((#[trigger] content.fields@[j]).field_type@),
        decreases n - i,
    {
        let field = &content.fields[i];
        let type_known = field.field_type == "text".to_owned() || field.field_type
            == "markdown".to_owned();
        if !type_known {
            proof {
                assert(!field_type_ok((content.fields@[i as int]).field_type@));
            }
            let mut details: String = "Invalid field type: ".to_owned();
            details.append(field.field_type.as_str());
            return Err(AppError::new("unknown", Some(details)));
        }
        i += 1;
    }
    let m = content.layout.len();
    let mut i: usize = 0;
    while i < m
        invariant
            i <= m,
            m == content.layout@.len(),
            content.fields@.len() > 0,
            content.layout@.len() > 0,
            forall|j: int| 0 <= j < i ==> operation_ok((#[trigger] content.layout@[j]).operation@),
            forall|j: int|
                0 <= j < content.fields@.len() ==> field_type_ok(
                    (#[trigger] content.fields@[j]).field_type@,
                ),
        decreases m - i,
    {
        let item = &content.layout[i];
        let known = item.operation == "display".to_owned() || item.operation
            == "reveal".to_owned() || item.operation == "type".to_owned();
        if !known {
            proof {
                assert(!operation_ok((content.layout@[i as int]).operation@));
            }
            let mut details: String = "Invalid layout operation: ".to_owned();
            details.append(item.operation.as_str());
            return Err(AppError::new("unknown", Some(details)));
        }
        i += 1;
    }
    let mut i: usize = 0;
    while i < m
        invariant
            i <= m,
            m == content.layout@.len(),
            content.fields@.len() > 0,
            content.layout@.len() > 0,
            forall|j: int|
                0 <= j < i ==> has_field_id(content.fields@, (#[trigger] content.layout@[j]).field),
            forall|j: int|
                0 <= j < content.fields@.len() ==> field_type_ok(
                    (#[trigger] content.fields@[j]).field_type@,
                ),
            forall|j: int|
                0 <= j < content.layout@.len() ==> operation_ok(
                    (#[trigger] content.layout@[j]).operation@,
                ),
        decreases m - i,
    {
        let item = &content.layout[i];
        if !fields_contain_id(&content.fields, item.field) {
            proof {
                assert(!has_field_id(content.fields@, (content.layout@[i as int]).field));
            }
            return Err(
                AppError::new("unknown", Some("Non-existent field id in layout".to_owned())),
            );
        }
        i += 1;
    }
    match original {
        Some(orig) => validate_locked_template_fields(&orig.fields, &content.fields),
        None => Ok(()),
    }
}

impl InsertTemplateData {
    /// Reject creation values with a bad title or bad content.
    pub fn validate(&self) -> (r: Result<(), AppError>)
        ensures
            r is Ok <==> title_len_ok(self.title@) && content_ok(self.content, None),
            r matches Err(e) ==> e.code@ == (if !title_len_ok(self.title@) {
                title_err_code(self.title@)
            } else {
                content_err_code(self.content, None)
            }),
    {
        match validate_title(self.title.as_str()) {
            Ok(()) => {},
            Err(e) => {
                return Err(e);
            },
        }
        validate_template_content(&self.content, None)
    }
}

impl UpdateTemplateValues {
    /// Reject update values with a bad title or bad content; `original`
    /// is given where the template is locked, and its fields must then be
    /// kept.
    pub fn validate(&self, original: Option<&TemplateContent>) -> (r: Result<(), AppError>)
        ensures
            r is Ok <==> title_len_ok(self.title@) && content_ok(
                self.content,
                match original {
                    Some(o) => Some(*o),
                    None => None,
                },
            ),
            r matches Err(e) ==> e.code@ == (if !title_len_ok(self.title@) {
                title_err_code(self.title@)
            } else {
                content_err_code(
                    self.content,
                    match original {
                        Some(o) => Some(*o),
                        None => None,
                    },
                )
            }),
    {
        match validate_title(self.title.as_str()) {
            Ok(()) => {},
            Err(e) => {
                return Err(e);
            },
        }
        validate_template_content(&self.content, original)
    }
}

} // verus!
