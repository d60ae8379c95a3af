use ai_tools_lib_rust::llms::base::LlmError;
use ai_tools_lib_rust::selection_utils::{
    check_selection_input, decide_top_token, first_label_over_threshold, is_valid_label, normalize_token,
    selection_prompt_variables, SelectionError,
};

fn items(entries: Vec<(&str, &str)>) -> Vec<(String, String)> {
    entries.into_iter().map(|(k, v)| (k.to_string(), v.to_string())).collect()
}

/// Sums the probabilities of the answer tokens by label, as the selection does.
fn probabilities(logprobs: &[(&str, f64)]) -> Vec<(String, f64)> {
    let mut out: Vec<(String, f64)> = Vec::new();
    for (token, logprob) in logprobs {
        let key = normalize_token(token);
        match out.iter_mut().find(|(k, _)| *k == key) {
            Some(e) => e.1 += logprob.exp(),
            None => out.push((key, logprob.exp())),
        }
    }
    out
}

#[test]
fn choose_best_item_returns_expected_label() {
    let items = items(vec![("A", "Apple"), ("B", "Boat")]);
    assert!(check_selection_input(&items, "Need a vehicle").is_ok());
    let mut probs = probabilities(&[("A", -1.0), ("B", -0.1)]);
    probs.sort_by(|a, b| b.1.partial_cmp(&a.1).unwrap());
    let top = probs.first().map(|(k, _)| k.as_str());
    let result = decide_top_token(top, &items).expect("selection");
    assert_eq!(result.as_deref(), Some("B"));
}

#[test]
fn choose_best_item_with_threshold_returns_none() {
    let items = items(vec![("A", "Apple")]);
    assert!(check_selection_input(&items, "Need food").is_ok());
    let probs = probabilities(&[("A", -10.0)]);
    let (labels, _) = selection_prompt_variables(&items, "Need food", "food");
    let over: Vec<bool> = labels
        .iter()
        .map(|l| probs.iter().any(|(k, p)| k == l && *p > 0.5))
        .collect();
    assert!(first_label_over_threshold(&labels, &over).is_none());
}

#[test]
fn choose_best_item_invalid_label_error() {
    let items = items(vec![("AB", "Bad")]);
    let err = check_selection_input(&items, "Need food").err().unwrap();
    assert!(matches!(err, SelectionError::InvalidLabel(_)));
}

#[test]
fn choose_best_item_empty_items_error() {
    let items = items(vec![]);
    let err = check_selection_input(&items, "Need food").err().unwrap();
    assert!(matches!(err, SelectionError::InvalidInput(_)));
}

#[test]
fn blank_purpose_is_refused() {
    match check_selection_input(&items(vec![("A", "x")]), "  \t") {
        Err(SelectionError::InvalidInput(m)) => assert_eq!(m, "purpose is empty"),
        other => panic!("unexpected {:?}", other),
    }
    match check_selection_input(&items(vec![]), "") {
        Err(SelectionError::InvalidInput(m)) => assert_eq!(m, "labeled_items is empty"),
        other => panic!("unexpected {:?}", other),
    }
}

#[test]
fn labels_are_one_digit_or_capital() {
    assert!(is_valid_label("A"));
    assert!(is_valid_label("7"));
    assert!(!is_valid_label("a"));
    assert!(!is_valid_label("É"));
    assert!(!is_valid_label(""));
    assert!(!is_valid_label("AB"));
    match check_selection_input(&items(vec![("A", "x"), ("b", "y")]), "p") {
        Err(SelectionError::InvalidLabel(l)) => assert_eq!(l, "b"),
        other => panic!("unexpected {:?}", other),
    }
}

#[test]
fn prompt_variables_list_the_sorted_labels() {
    let items = items(vec![("C", "Cat"), ("A", "Apple"), ("1", "One")]);
    let (labels, vars) = selection_prompt_variables(&items, "purpose text", "thing");
    assert_eq!(labels, vec!["1".to_string(), "A".to_string(), "C".to_string()]);
    let expected = vec![
        ("purpose", "purpose text"),
        ("item_type", "thing"),
        ("labels_str", "1, A, C"),
        ("labeled_items_list", "1: One\nA: Apple\nC: Cat"),
    ];
    assert_eq!(vars.len(), expected.len());
    for ((k, v), (ek, ev)) in vars.iter().zip(expected.iter()) {
        assert_eq!(k, ek);
        assert_eq!(v, ev);
    }
}

#[test]
fn tokens_are_trimmed_and_upper_cased() {
    assert_eq!(normalize_token(" b\n"), "B");
    assert_eq!(normalize_token("x"), "X");
    assert_eq!(normalize_token("ß"), "SS");
}

#[test]
fn top_token_decisions() {
    let items = items(vec![("A", "Apple")]);
    assert!(matches!(decide_top_token(Some("X"), &items), Ok(None)));
    assert!(matches!(decide_top_token(Some("Y"), &items), Ok(None)));
    assert!(matches!(decide_top_token(Some("A"), &items), Ok(Some(ref l)) if l == "A"));
    assert!(matches!(decide_top_token(Some("Z"), &items), Err(SelectionError::InvalidLLMResponse)));
    assert!(matches!(decide_top_token(None, &items), Err(SelectionError::InvalidLLMResponse)));
}

#[test]
fn first_label_over_the_threshold_wins() {
    let labels = vec!["A".to_string(), "B".to_string(), "C".to_string()];
    assert_eq!(first_label_over_threshold(&labels, &vec![false, true, true]).as_deref(), Some("B"));
    assert!(first_label_over_threshold(&labels, &vec![false, false, false]).is_none());
}

#[test]
fn errors_convert_into_selection_errors() {
    let e: SelectionError = LlmError::InvalidResponse.into();
    assert!(matches!(e, SelectionError::LlmError(LlmError::InvalidResponse)));
}
