//! Lesson summaries and the parameters of lesson queries.

use vstd::prelude::*;

use crate::templates::TemplateField;
use crate::text::dec_str_i64;
use crate::text::i64_to_string;

verus! {

/// Review workload of one deck, or of all decks together.
#[derive(Debug)]
pub struct Lesson {
    pub id: Option<i64>,
    pub title: Option<String>,
    pub untouched: i64,
    pub learn: i64,
    pub review: i64,
    pub total: i64,
}

/// Which decks a lesson query covers; none means all.
#[derive(Debug)]
pub struct LessonFilters {
    pub deck_ids: Option<Vec<i64>>,
}

/// How many cards of each kind a lesson asks for.
#[derive(Debug)]
pub struct LessonAmounts {
    pub untouched: i64,
    pub learn: i64,
    pub review: i64,
    pub total: i64,
}

/// One layout step of a lesson's template, with its field resolved.
#[derive(Debug)]
pub struct LessonTemplateLayoutItem {
    pub field: Option<TemplateField>,
    pub operation: String,
    pub field_id: i64,
}

/// A template as a lesson presents it.
#[derive(Debug)]
pub struct LessonTemplate {
    pub id: i64,
    pub title: String,
    pub fields: Vec<TemplateField>,
    pub layout: Vec<LessonTemplateLayoutItem>,
    pub created_at: i64,
    pub updated_at: Option<i64>,
}

/// Parameters of a lesson-data query.
#[derive(Debug)]
pub struct GetLessonDataParams {
    pub due_at: i64,
    pub filters: LessonFilters,
    pub amounts: LessonAmounts,
}

/// Parameters of a lessons listing.
#[derive(Debug)]
pub struct GetLessonsParams {
    pub due_at: i64,
    pub filters: Option<LessonFilters>,
}

/// The ids rendered as a comma-separated decimal list.
pub open spec fn joined_ids(ids: Seq<i64>) -> Seq<char>
    decreases ids.len(),
{
    if ids.len() == 0 {
        Seq::empty()
    } else if ids.len() == 1 {
        dec_str_i64(ids.last() as int)
    } else {
        joined_ids(ids.drop_last()) + ", "@ + dec_str_i64(ids.last() as int)
    }
}

/// The deck ids a filter restricts a query to, if it restricts at all: an
/// absent filter, absent ids, or an empty id list mean no restriction.
pub open spec fn spec_filter_ids(filters: Option<LessonFilters>) -> Option<Seq<i64>> {
    match filters {
        Some(f) => match f.deck_ids {
            Some(ids) => if ids@.len() > 0 {
                Some(ids@)
            } else {
                None
            },
            None => None,
        },
        None => None,
    }
}

/// The SQL fragment restricting a lesson query's rows to the filtered
/// decks: `" AND {column} IN (id, id, ...)"`, or nothing where the filter
/// does not restrict.
pub fn get_lesson_filters_sql(column: &str, filters: Option<&LessonFilters>) -> (r: String)
    ensures
        ({
            let spec_filters = match filters {
                Some(f) => Some(*f),
                None => None,
            };
            match spec_filter_ids(spec_filters) {
                Some(ids) => r@ == " AND "@ + column@ + " IN ("@ + joined_ids(ids) + ")"@,
                None => r@ == Seq::<char>::empty(),
            }
        }),
{
    let deck_ids = match filters {
        Some(f) => match &f.deck_ids {
            Some(ids) => if ids.len() > 0 {
                ids
            } else {
                return String::new();
            },
            None => {
                return String::new();
            },
        },
        None => {
            return String::new();
        },
    };
    let mut out: String = " AND ".to_owned();
    out.append(column);
    out.append(" IN (");
    let n = deck_ids.len();
    let mut joined: String = String::new();
    let mut i: usize = 0;
    while i < n
        invariant
            0 < n,
            i <= n,
            n == deck_ids@.len(),
            joined@ == joined_ids(deck_ids@.subrange(0, i as int)),
        decreases n - i,
    {
        if i > 0 {
            joined.append(", ");
        }
        let rendered = i64_to_string(deck_ids[i]);
        joined.append(rendered.as_str());
        proof {
            let prefix = deck_ids@.subrange(0, i as int);
            let longer = deck_ids@.subrange(0, i + 1);
            assert(longer.drop_last() =~= prefix);
            assert(longer.last() == deck_ids@[i as int]);
            if i == 0 {
                assert(joined@ =~= joined_ids(longer));
            } else {
                assert(joined@ =~= joined_ids(longer));
            }
        }
        i += 1;
    }
    proof {
        assert(deck_ids@.subrange(0, n as int) =~= deck_ids@);
    }
    out.append(joined.as_str());
    out.append(")");
    proof {
        assert(" AND "@ + column@ + " IN ("@ + joined_ids(deck_ids@) + ")"@ =~= (((" AND "@
            + column@) + " IN ("@) + joined_ids(deck_ids@)) + ")"@);
    }
    out
}

} // verus!
