use esq::builder::MatchClause;
use esq::error::ESQError;
use esq::params::{validate_parameters, ParameterCombination, WhereFilter};
use esq::plan::gen_query_match;

#[test]
fn test_validate_around_with_from() {
    let result = validate_parameters(
        &Some("2024-01-01".to_string()),
        &Some("2024-01-01".to_string()),
        &None,
        &10,
        false,
        &None,
        &None,
    );
    assert!(result.is_err());
}

#[test]
fn test_validate_around_with_follow() {
    let result = validate_parameters(
        &Some("2024-01-01".to_string()),
        &None,
        &None,
        &10,
        true,
        &None,
        &None,
    );
    assert!(result.is_err());
}

#[test]
fn test_validate_to_with_follow() {
    let result = validate_parameters(
        &None,
        &None,
        &Some("2024-01-01".to_string()),
        &10,
        true,
        &None,
        &None,
    );
    assert!(result.is_err());
}

#[test]
fn test_validate_valid_params() {
    let result = validate_parameters(
        &None,
        &Some("2024-01-01".to_string()),
        &None,
        &10,
        false,
        &None,
        &None,
    );
    assert!(result.is_ok());
    assert_eq!(result.unwrap().mode, ParameterCombination::From);
}

#[test]
fn test_validate_around_only() {
    let result = validate_parameters(
        &Some("2024-01-01".to_string()),
        &None,
        &None,
        &10,
        false,
        &None,
        &None,
    );
    assert!(result.is_ok());
    assert_eq!(result.unwrap().mode, ParameterCombination::Around);
}

#[test]
fn test_validate_to_only() {
    let result = validate_parameters(
        &None,
        &None,
        &Some("2024-01-01".to_string()),
        &10,
        false,
        &None,
        &None,
    );
    assert!(result.is_ok());
    assert_eq!(result.unwrap().mode, ParameterCombination::To);
}

#[test]
fn test_validate_from_only() {
    let result = validate_parameters(
        &None,
        &Some("2024-01-01".to_string()),
        &None,
        &10,
        false,
        &None,
        &None,
    );
    assert!(result.is_ok());
    assert_eq!(result.unwrap().mode, ParameterCombination::From);
}

#[test]
fn test_validate_from_to() {
    let result = validate_parameters(
        &None,
        &Some("2024-01-01".to_string()),
        &Some("2024-01-02".to_string()),
        &10,
        false,
        &None,
        &None,
    );
    assert!(result.is_ok());
    assert_eq!(result.unwrap().mode, ParameterCombination::FromTo);
}

#[test]
fn test_validate_from_to_invalid_n() {
    let result = validate_parameters(
        &None,
        &Some("2024-01-01".to_string()),
        &Some("2024-01-02".to_string()),
        &20,
        false,
        &None,
        &None,
    );
    assert!(result.is_err());
}

#[test]
fn test_validate_around_invalid_n() {
    let result = validate_parameters(
        &Some("2024-01-01".to_string()),
        &None,
        &None,
        &10000,
        false,
        &None,
        &None,
    );
    assert!(result.is_err());
}

#[test]
fn test_validate_to_invalid_n() {
    let result = validate_parameters(
        &None,
        &None,
        &Some("2024-01-01".to_string()),
        &10000,
        false,
        &None,
        &None,
    );
    assert!(result.is_err());
}

#[test]
fn test_validate_from_n() {
    let result = validate_parameters(
        &None,
        &Some("2024-01-01".to_string()),
        &None,
        &20000,
        false,
        &None,
        &None,
    );
    assert!(result.is_ok());
    assert_eq!(result.unwrap().mode, ParameterCombination::From);
}

#[test]
fn test_validate_none() {
    let result = validate_parameters(
        &None,
        &None,
        &None,
        &20,
        false,
        &None,
        &None,
    );
    assert!(result.is_ok());
    assert_eq!(result.unwrap().mode, ParameterCombination::Latest);
}

#[test]
fn test_validate_empty_select_clause() {
    let result = validate_parameters(
        &None,
        &None,
        &None,
        &10,
        false,
        &Some("".to_string()),
        &None,
    );
    assert!(result.is_err());
}

#[test]
fn test_validate_invalid_where_clause() {
    let result = validate_parameters(
        &None,
        &None,
        &None,
        &10,
        false,
        &None,
        &Some("field1:value1,invalid_format".to_string()),
    );
    assert!(result.is_err());
}

#[test]
fn test_validate_empty_where_clause() {
    let result = validate_parameters(
        &None,
        &None,
        &None,
        &10,
        false,
        &None,
        &Some("".to_string()),
    );
    assert!(result.is_err());
}

#[test]
fn test_validate_select_clause() {
    let result = validate_parameters(
        &None,
        &None,
        &None,
        &10,
        false,
        &Some("field1,field2,field3".to_string()),
        &None,
    );
    assert!(result.is_ok());
    let validation = result.unwrap();
    assert_eq!(
        validation.select_fields,
        Some(vec!["field1".to_string(), "field2".to_string(), "field3".to_string()])
    );
}

#[test]
fn test_validate_where_clause() {
    let result = validate_parameters(
        &None,
        &None,
        &None,
        &10,
        false,
        &None,
        &Some("field1:value1,field2:value2".to_string()),
    );
    assert!(result.is_ok());
    let validation = result.unwrap();
    let filters = validation.where_filters.unwrap();
    assert_eq!(filters.len(), 2);
    assert_eq!(filters[0].field, "field1");
    assert_eq!(filters[0].value, "value1");
    assert_eq!(filters[1].field, "field2");
    assert_eq!(filters[1].value, "value2");
}

#[test]
fn test_validate_combined_select_and_where() {
    let result = validate_parameters(
        &None,
        &None,
        &None,
        &10,
        false,
        &Some("field1,field2".to_string()),
        &Some("field1:value1".to_string()),
    );
    assert!(result.is_ok());
    let validation = result.unwrap();
    assert_eq!(
        validation.select_fields,
        Some(vec!["field1".to_string(), "field2".to_string()])
    );
    let filters = validation.where_filters.unwrap();
    assert_eq!(filters.len(), 1);
    assert_eq!(filters[0].field, "field1");
    assert_eq!(filters[0].value, "value1");
}

fn filter(field: &str, value: &str) -> WhereFilter {
    WhereFilter { field: field.to_string(), value: value.to_string() }
}

#[test]
fn test_gen_query_match_none() {
    let result = gen_query_match(&None);
    assert_eq!(result, None);
}

#[test]
fn test_gen_query_match_empty() {
    let filters = Some(vec![]);
    let result = gen_query_match(&filters);
    assert_eq!(result, Some(MatchClause::MatchAll));
}

#[test]
fn test_gen_query_match_single() {
    let filters = Some(vec![filter("level", "ERROR")]);
    let result = gen_query_match(&filters);
    assert_eq!(result, Some(MatchClause::Match(filter("level", "ERROR"))));
}

#[test]
fn test_gen_query_match_multiple() {
    let filters = vec![filter("kubernetes.namespace", "production"), filter("level", "WARN")];
    let result = gen_query_match(&Some(filters));
    assert_eq!(
        result,
        Some(MatchClause::Must(vec![
            filter("kubernetes.namespace", "production"),
            filter("level", "WARN"),
        ]))
    );
}

fn validate_where(spec: &str) -> Result<Vec<WhereFilter>, ESQError> {
    validate_parameters(&None, &None, &None, &10, false, &None, &Some(spec.to_string()))
        .map(|v| v.where_filters.unwrap())
}

fn validate_select(spec: &str) -> Result<Vec<String>, ESQError> {
    validate_parameters(&None, &None, &None, &10, false, &Some(spec.to_string()), &None)
        .map(|v| v.select_fields.unwrap())
}

#[test]
fn where_pairs_combine_into_conjunction() {
    let filters = validate_where("a:1,b:2").unwrap();
    assert_eq!(filters, vec![filter("a", "1"), filter("b", "2")]);
    assert_eq!(
        gen_query_match(&Some(filters)),
        Some(MatchClause::Must(vec![filter("a", "1"), filter("b", "2")]))
    );
}

#[test]
fn where_with_bad_pair_fails_whole() {
    assert!(matches!(validate_where("a:1,bad"), Err(ESQError::ValidationError(_))));
}

#[test]
fn where_pairs_are_trimmed() {
    assert_eq!(validate_where(" a : 1 ").unwrap(), vec![filter("a", "1")]);
}

#[test]
fn where_rejects_extra_colon_and_blank_sides() {
    assert!(validate_where("a:b:c").is_err());
    assert!(validate_where("a: ").is_err());
    assert!(validate_where(":1").is_err());
    assert!(validate_where("a:1,").is_err());
}

#[test]
fn select_fields_are_trimmed() {
    assert_eq!(
        validate_select("f1, f2 ,f3").unwrap(),
        vec!["f1".to_string(), "f2".to_string(), "f3".to_string()]
    );
}

#[test]
fn select_empty_fails() {
    assert!(matches!(validate_select(""), Err(ESQError::ValidationError(_))));
}

#[test]
fn select_blank_pieces_are_dropped() {
    assert_eq!(validate_select(",a,, b ,").unwrap(), vec!["a".to_string(), "b".to_string()]);
    assert!(validate_select(" , ,\t").is_err());
}

#[test]
fn follow_conflicts_with_every_time_option() {
    let d = Some("2024-01-01".to_string());
    for (a, f, t) in [(&d, &None, &None), (&None, &d, &None), (&None, &None, &d)] {
        let r = validate_parameters(a, f, t, &10, true, &None, &None);
        assert!(matches!(r, Err(ESQError::ValidationError(_))));
    }
}

#[test]
fn follow_alone_is_follow_mode() {
    let r = validate_parameters(&None, &None, &None, &10, true, &None, &None).unwrap();
    assert_eq!(r.mode, ParameterCombination::Follow);
}

#[test]
fn line_limit_is_inclusive() {
    let d = Some("2024-01-01".to_string());
    let ok = validate_parameters(&d, &None, &None, &5000, false, &None, &None).unwrap();
    assert_eq!(ok.mode, ParameterCombination::Around);
    assert!(validate_parameters(&d, &None, &None, &5001, false, &None, &None).is_err());
    let ok = validate_parameters(&None, &None, &d, &5000, false, &None, &None).unwrap();
    assert_eq!(ok.mode, ParameterCombination::To);
    assert!(validate_parameters(&None, &None, &d, &5001, false, &None, &None).is_err());
}

#[test]
fn full_range_rejects_other_counts() {
    let d = Some("2024-01-01".to_string());
    assert!(validate_parameters(&None, &d, &d, &9, false, &None, &None).is_err());
    assert!(validate_parameters(&None, &d, &d, &11, false, &None, &None).is_err());
}

#[test]
fn mode_names() {
    assert_eq!(ParameterCombination::FromTo.name(), "from+to");
    assert_eq!(ParameterCombination::Latest.name(), "none");
    assert_eq!(ParameterCombination::Around.name(), "around");
}
