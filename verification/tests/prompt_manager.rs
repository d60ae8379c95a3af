use ai_tools_lib_rust::json::{JsonNumber, JsonValue};
use ai_tools_lib_rust::prompt_manager::prompt_template::{
    ensure_variable_consistency, extract_template_variables, get_and_render_prompt_from, get_prompt_template,
    get_prompt_template_from,
    prompt_variables_from_str_map, render_prompt, validate_var_type, variable_defs_to_prompt_variables,
    PromptDir, PromptFile, PromptStore, PromptTemplateData, PromptTemplateError, PromptVariable, VariableDef,
    VariablesFile,
};
use ai_tools_lib_rust::prompt_manager::{PromptCategory, PromptPhase, PromptTemplate};

fn text(s: &str) -> JsonValue {
    JsonValue::String(s.to_string())
}

fn num(n: u64) -> JsonValue {
    JsonValue::Number(JsonNumber::PosInt(n))
}

fn var(name: &str, ty: &str) -> PromptVariable {
    PromptVariable { name: name.into(), var_type: ty.into(), required: true }
}

fn vars(entries: Vec<(&str, JsonValue)>) -> Vec<(String, JsonValue)> {
    entries.into_iter().map(|(k, v)| (k.to_string(), v)).collect()
}

#[test]
fn render_prompt_success() {
    let prompt = PromptTemplateData {
        name: "greet".into(),
        template_text: "Hello {{ name }}".into(),
        variables: vec![var("name", "str")],
    };
    let vars = vars(vec![("name", text("Alice"))]);
    let rendered = render_prompt(&prompt, &vars).expect("should render");
    assert_eq!(rendered, "Hello Alice");
}

#[test]
fn render_prompt_missing_variable() {
    let prompt = PromptTemplateData {
        name: "greet".into(),
        template_text: "Hello {{ name }} {{ surname }}".into(),
        variables: vec![var("name", "str"), var("surname", "str")],
    };
    let vars = vars(vec![("name", text("Alice"))]);
    assert!(render_prompt(&prompt, &vars).is_err());
}

#[test]
fn render_prompt_extra_variable() {
    let prompt = PromptTemplateData {
        name: "greet".into(),
        template_text: "Hello {{ name }}".into(),
        variables: vec![var("name", "str")],
    };
    let vars = vars(vec![("name", text("Alice")), ("unused", text("value"))]);
    assert!(render_prompt(&prompt, &vars).is_err());
}

#[test]
fn render_prompt_rejects_string_for_int_type() {
    let prompt = PromptTemplateData {
        name: "n".into(),
        template_text: "n={{ n }}".into(),
        variables: vec![var("n", "int")],
    };
    let vars = vars(vec![("n", text("42"))]);
    assert!(render_prompt(&prompt, &vars).is_err());
}

#[test]
fn render_prompt_accepts_json_integer() {
    let prompt = PromptTemplateData {
        name: "n".into(),
        template_text: "n={{ n }}".into(),
        variables: vec![var("n", "int")],
    };
    let vars = vars(vec![("n", num(7))]);
    let rendered = render_prompt(&prompt, &vars).expect("render");
    assert!(rendered.contains('7'));
}

#[test]
fn render_prompt_rejects_bool_for_int_type() {
    let prompt = PromptTemplateData {
        name: "n".into(),
        template_text: "n={{ n }}".into(),
        variables: vec![var("n", "int")],
    };
    let vars = vars(vec![("n", JsonValue::Bool(true))]);
    let err = render_prompt(&prompt, &vars).expect_err("bool is not int");
    assert!(matches!(
        err,
        PromptTemplateError::VariableValueType {
            ref name,
            ref expected_type,
            ..
        } if name == "n" && expected_type == "int"
    ));
}

#[test]
fn render_prompt_rejects_float_json_for_int_type() {
    let prompt = PromptTemplateData {
        name: "n".into(),
        template_text: "n={{ n }}".into(),
        variables: vec![var("n", "int")],
    };
    let vars = vars(vec![("n", JsonValue::Number(JsonNumber::Float("3.5".into())))]);
    assert!(matches!(render_prompt(&prompt, &vars), Err(PromptTemplateError::VariableValueType { .. })));
}

#[test]
fn render_prompt_rejects_int_for_bool_type() {
    let prompt = PromptTemplateData {
        name: "b".into(),
        template_text: "b={{ b }}".into(),
        variables: vec![var("b", "bool")],
    };
    let vars = vars(vec![("b", num(1))]);
    assert!(matches!(render_prompt(&prompt, &vars), Err(PromptTemplateError::VariableValueType { .. })));
}

#[test]
fn render_prompt_list_int_rejects_string_element() {
    let prompt = PromptTemplateData {
        name: "xs".into(),
        template_text: "{% for x in xs %}{{ x }}{% endfor %}".into(),
        variables: vec![var("xs", "list[int]")],
    };
    let vars = vars(vec![("xs", JsonValue::Array(vec![num(1), text("2")]))]);
    let err = render_prompt(&prompt, &vars).expect_err("element type");
    assert!(matches!(err, PromptTemplateError::VariableValueType { .. }));
}

#[test]
fn render_prompt_dict_str_str_accepts_string_values() {
    let prompt = PromptTemplateData {
        name: "d".into(),
        template_text: "{{ data.k }}".into(),
        variables: vec![var("data", "dict[str, str]")],
    };
    let vars = vars(vec![("data", JsonValue::Object(vec![("k".to_string(), text("v"))]))]);
    let rendered = render_prompt(&prompt, &vars).expect("render");
    assert_eq!(rendered, "v");
}

#[test]
fn render_prompt_dict_str_str_rejects_non_string_value() {
    let prompt = PromptTemplateData {
        name: "d".into(),
        template_text: "{{ data }}".into(),
        variables: vec![var("data", "dict[str, str]")],
    };
    let vars = vars(vec![("data", JsonValue::Object(vec![("k".to_string(), num(1))]))]);
    let err = render_prompt(&prompt, &vars).expect_err("value type");
    assert!(matches!(
        err,
        PromptTemplateError::VariableValueType {
            ref name,
            ref expected_type,
            ..
        } if name == "data" && expected_type == "dict[str, str]"
    ));
}

#[test]
fn get_prompt_template_returns_not_found_when_prompt_dir_missing_from_embed() {
    assert!(matches!(get_prompt_template(PromptTemplate::VideoAnalysisPrompt), Err(PromptTemplateError::NotFound(_))));
}

#[test]
fn not_found_names_the_template_directory() {
    match get_prompt_template(PromptTemplate::SelectionUtilsUserPrompt) {
        Err(PromptTemplateError::NotFound(p)) => assert_eq!(p, "selection-utils/selection_utils_user_prompt"),
        other => panic!("unexpected {:?}", other),
    }
}

#[test]
fn missing_variable_reports_missing_names_sorted() {
    let prompt = PromptTemplateData {
        name: "greet".into(),
        template_text: "{{ b }} {{ a }}".into(),
        variables: vec![var("b", "str"), var("a", "str")],
    };
    match render_prompt(&prompt, &Vec::new()) {
        Err(PromptTemplateError::VariableMismatch { prompt, missing, extra }) => {
            assert_eq!(prompt, "greet");
            assert_eq!(missing, vec!["a".to_string(), "b".to_string()]);
            assert!(extra.is_empty());
        },
        other => panic!("unexpected {:?}", other),
    }
}

#[test]
fn optional_variable_may_be_left_out() {
    let prompt = PromptTemplateData {
        name: "greet".into(),
        template_text: "Hi{% if who %} {{ who }}{% endif %}".into(),
        variables: vec![PromptVariable { name: "who".into(), var_type: "str".into(), required: false }],
    };
    assert_eq!(render_prompt(&prompt, &Vec::new()).expect("render"), "Hi");
}

#[test]
fn rendering_failure_is_reported_with_the_prompt_name() {
    let prompt = PromptTemplateData {
        name: "broken".into(),
        template_text: "{{ name".into(),
        variables: vec![var("name", "str")],
    };
    let vars = vars(vec![("name", text("Alice"))]);
    assert!(matches!(
        render_prompt(&prompt, &vars),
        Err(PromptTemplateError::Rendering { ref prompt, .. }) if prompt == "broken"
    ));
}

#[test]
fn string_map_becomes_string_values() {
    let m = vec![("a".to_string(), "1".to_string())];
    let v = prompt_variables_from_str_map(&m);
    assert_eq!(v.len(), 1);
    assert_eq!(v[0].0, "a");
    assert!(matches!(v[0].1, JsonValue::String(ref s) if s == "1"));
}

#[test]
fn var_types_are_checked() {
    for ok in ["str", "int", "bool", "list[int]", "list[str]", "dict[str, str]"] {
        assert!(validate_var_type(ok).is_ok());
    }
    match validate_var_type("float") {
        Err(PromptTemplateError::VariablesParse { prompt, detail }) => {
            assert_eq!(prompt, "variables.yml");
            assert_eq!(detail, "unsupported type 'float'");
        },
        other => panic!("unexpected {:?}", other),
    }
}

#[test]
fn definitions_become_variables() {
    let defs = vec![VariableDef { name: "x".into(), var_type: "int".into(), required: false }];
    let v = variable_defs_to_prompt_variables(&defs).expect("defs");
    assert_eq!(v.len(), 1);
    assert_eq!(v[0].name, "x");
    assert_eq!(v[0].var_type, "int");
    assert!(!v[0].required);
    let bad = vec![VariableDef { name: "y".into(), var_type: "set".into(), required: true }];
    assert!(variable_defs_to_prompt_variables(&bad).is_err());
}

#[test]
fn template_variables_are_extracted_once_each() {
    let found = extract_template_variables("{{ a }} {% for x in xs %}{{ a }}{% endfor %}{% if flag %}{% endif %}");
    assert_eq!(found, vec!["a".to_string(), "xs".to_string(), "flag".to_string()]);
}

#[test]
fn variable_consistency_reports_both_sides() {
    let defined = vec!["a".to_string(), "b".to_string()];
    let referenced = vec!["b".to_string(), "c".to_string()];
    match ensure_variable_consistency("p", &defined, &referenced) {
        Err(PromptTemplateError::VariableMismatch { prompt, missing, extra }) => {
            assert_eq!(prompt, "p");
            assert_eq!(missing, vec!["c".to_string()]);
            assert_eq!(extra, vec!["a".to_string()]);
        },
        other => panic!("unexpected {:?}", other),
    }
    assert!(ensure_variable_consistency("p", &defined, &vec!["a".to_string(), "b".to_string()]).is_ok());
}

fn selection_store(template_text: &str, yaml: Result<VariablesFile, String>) -> PromptStore {
    PromptStore {
        dirs: vec![PromptDir {
            path: "selection-utils/selection_utils_user_prompt".into(),
            files: vec![
                PromptFile { name: "user_prompt.j2".into(), contents: Some(template_text.into()) },
                PromptFile { name: "variables.yml".into(), contents: Some("user_prompt: []".into()) },
            ],
            variables_yaml: yaml,
        }],
    }
}

#[test]
fn a_template_loads_from_a_tree() {
    let yaml = VariablesFile {
        system_prompt: vec![],
        user_prompt: vec![VariableDef { name: "purpose".into(), var_type: "str".into(), required: true }],
    };
    let store = selection_store("Purpose: {{ purpose }}", Ok(yaml));
    let data = get_prompt_template_from(&store, PromptTemplate::SelectionUtilsUserPrompt).expect("load");
    assert_eq!(data.name, "selection_utils_user_prompt");
    assert_eq!(data.template_text, "Purpose: {{ purpose }}");
    assert_eq!(data.variables.len(), 1);
    assert_eq!(data.variables[0].name, "purpose");
}

#[test]
fn loaded_declarations_are_the_referenced_names() {
    let yaml = VariablesFile {
        system_prompt: vec![],
        user_prompt: vec![
            VariableDef { name: "items".into(), var_type: "list[str]".into(), required: true },
            VariableDef { name: "purpose".into(), var_type: "str".into(), required: false },
        ],
    };
    let text = "{% for item in items %}For {{ purpose }}: item.{% endfor %}";
    let store = selection_store(text, Ok(yaml));
    let data = get_prompt_template_from(&store, PromptTemplate::SelectionUtilsUserPrompt).expect("load");
    let mut declared: Vec<String> = data.variables.iter().map(|v| v.name.clone()).collect();
    let mut referenced = extract_template_variables(&data.template_text);
    assert_eq!(referenced, vec!["purpose".to_string(), "items".to_string()]);
    declared.sort();
    referenced.sort();
    assert_eq!(declared, referenced);
}

#[test]
fn a_template_whose_declarations_disagree_is_refused() {
    let yaml = VariablesFile { system_prompt: vec![], user_prompt: vec![] };
    let store = selection_store("Purpose: {{ purpose }}", Ok(yaml));
    assert!(matches!(
        get_prompt_template_from(&store, PromptTemplate::SelectionUtilsUserPrompt),
        Err(PromptTemplateError::VariableMismatch { .. })
    ));
}

#[test]
fn template_names_folders_and_files() {
    let t = PromptTemplate::SelectionUtilsUserPrompt;
    assert_eq!(t.name(), "selection_utils_user_prompt");
    assert_eq!(t.folder_path(), "selection-utils");
    assert_eq!(t.folder_path(), t.category().as_str());
    assert!(matches!(t.phase(), PromptPhase::User));
    assert_eq!(t.template_file_name(), "user_prompt.j2");
    let s = PromptTemplate::SelectionUtilsSystemPrompt;
    assert!(matches!(s.phase(), PromptPhase::System));
    assert_eq!(s.template_file_name(), "system_prompt.j2");
    assert_eq!(PromptPhase::User.as_str(), "user");
    assert!(matches!(PromptTemplate::VideoAnalysisPrompt.category(), PromptCategory::VideoAi));
}

#[test]
fn a_template_from_a_tree_renders() {
    let yaml = VariablesFile {
        system_prompt: vec![],
        user_prompt: vec![VariableDef { name: "purpose".into(), var_type: "str".into(), required: true }],
    };
    let store = selection_store("Purpose: {{ purpose }}", Ok(yaml));
    let vars = vars(vec![("purpose", text("testing"))]);
    let out = get_and_render_prompt_from(&store, PromptTemplate::SelectionUtilsUserPrompt, &vars).expect("render");
    assert_eq!(out, "Purpose: testing");
    let empty = PromptStore { dirs: vec![] };
    assert!(matches!(
        get_and_render_prompt_from(&empty, PromptTemplate::SelectionUtilsUserPrompt, &vars),
        Err(PromptTemplateError::NotFound(_))
    ));
}

#[test]
fn template_names_are_distinct() {
    let all = [
        PromptTemplate::PromptPreamble,
        PromptTemplate::UserMessageProcessingSystemPrompt,
        PromptTemplate::PlanGenerationAgentSystemPrompt,
        PromptTemplate::DetailedUsageEvaluationAgentSystemPrompt,
        PromptTemplate::NodeAnalysisPrompt,
        PromptTemplate::GetEditedVideoResponsePrompt,
        PromptTemplate::GetEditedVideoResponseUserPrompt,
        PromptTemplate::ProcessFileMessagePrepPrompt,
        PromptTemplate::ContentSectioningSystemPrompt,
        PromptTemplate::DiagramSpeechMatchingPrompt,
        PromptTemplate::SelectBestImageFromWebpagePrompt,
        PromptTemplate::GenerateSpeakerIntroBlurbPrompt,
        PromptTemplate::AnalyzeTranscriptStructurePrompt,
        PromptTemplate::PickBestSlidePrompt,
        PromptTemplate::IntroTranscriptPrompt,
        PromptTemplate::GenerateAddedOutroTranscriptPrompt,
        PromptTemplate::GenerateSpeakerThankYouBlurbPrompt,
        PromptTemplate::GenerateNarrativeAdditionForSlidePrompt,
        PromptTemplate::InsertionHintParserPrompt,
        PromptTemplate::InsertionHintUserPrompt,
        PromptTemplate::InsertionHintRetryPrompt,
        PromptTemplate::ExtractImageDescriptionPrompt,
        PromptTemplate::ExtractWebpageContentOnlyPrompt,
        PromptTemplate::ExtractWebpageFullPrompt,
        PromptTemplate::DslAiHelperSystemPrompt,
        PromptTemplate::DslAiHelperOtherSourcesSubPrompt,
        PromptTemplate::SummarizerSystemPrompt,
        PromptTemplate::ContentEditorPrompt,
        PromptTemplate::BuildStyleExtractionPrompt,
        PromptTemplate::ExtractSlideFromGeminiPrompt,
        PromptTemplate::PronunciationFinderPrompt,
        PromptTemplate::BestPronunciationSelectionPrompt,
        PromptTemplate::LocateDisfluenciesPrompt,
        PromptTemplate::VideoAnalysisPrompt,
        PromptTemplate::SelectionUtilsSystemPrompt,
        PromptTemplate::SelectionUtilsUserPrompt,
    ];
    let mut names: Vec<&str> = all.iter().map(|t| t.name()).collect();
    for name in names.iter() {
        assert!(!name.is_empty());
        assert!(name.chars().all(|c| c.is_ascii_lowercase() || c == '_'), "{}", name);
    }
    assert_eq!(PromptTemplate::DslAiHelperOtherSourcesSubPrompt.name(), "dsl_ai_helper_other_sources_sub_prompt");
    names.sort();
    names.dedup();
    assert_eq!(names.len(), all.len());
}
