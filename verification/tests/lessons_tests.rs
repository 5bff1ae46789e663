use koloda::lessons::LessonFilters;
use koloda::lessons::get_lesson_filters_sql;

#[test]
fn lesson_filters_render_as_sql_fragment() {
    let filters = LessonFilters { deck_ids: Some(vec![3, -1, 42]) };
    assert_eq!(
        get_lesson_filters_sql("deck_id", Some(&filters)),
        " AND deck_id IN (3, -1, 42)"
    );

    let single = LessonFilters { deck_ids: Some(vec![7]) };
    assert_eq!(get_lesson_filters_sql("d.id", Some(&single)), " AND d.id IN (7)");
}

#[test]
fn absent_or_empty_filters_render_nothing() {
    assert_eq!(get_lesson_filters_sql("d.id", None), "");

    let no_ids = LessonFilters { deck_ids: None };
    assert_eq!(get_lesson_filters_sql("d.id", Some(&no_ids)), "");

    let empty = LessonFilters { deck_ids: Some(vec![]) };
    assert_eq!(get_lesson_filters_sql("d.id", Some(&empty)), "");
}
