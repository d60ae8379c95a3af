use ai_tools_lib_rust::prompt_manager::prompt_layer::{
    authorization_value, base_url_or_default, environment_or_default, extract_prompt, fetch_query, render_f_string,
    render_jinja, render_prompt, template_lookups, template_not_found, templates_url, validate_variables,
    PromptContent, PromptLayerError, PromptLayerTemplate, PromptMessage, PromptTemplateData, PromptTemplatePayload,
};
use ai_tools_lib_rust::prompt_manager::PromptTemplate;
use ai_tools_lib_rust::template_scan::may_not_return;

fn vars(entries: Vec<(&str, &str)>) -> Vec<(String, String)> {
    entries.into_iter().map(|(k, v)| (k.to_string(), v.to_string())).collect()
}

fn data(format: &str, text: &str, inputs: Vec<&str>) -> PromptTemplateData {
    PromptTemplateData {
        name: "p".into(),
        input_variables: inputs.into_iter().map(String::from).collect(),
        template_format: format.into(),
        template_text: text.into(),
    }
}

fn parse_message(r: Result<String, PromptLayerError>) -> String {
    match r {
        Err(PromptLayerError::Parse(m)) => m,
        other => panic!("unexpected {:?}", other),
    }
}

#[test]
fn served_templates_are_picked_apart() {
    let served = PromptLayerTemplate {
        prompt_name: "greet".into(),
        prompt_template: PromptTemplatePayload {
            messages: vec![PromptMessage {
                input_variables: vec!["name".into()],
                template_format: "f-string".into(),
                content: vec![PromptContent { id: None, annotations: None, text: Some("Hi {name}".into()) }],
            }],
        },
    };
    let d = extract_prompt(&served).expect("prompt");
    assert_eq!(d.name, "greet");
    assert_eq!(d.input_variables, vec!["name".to_string()]);
    assert_eq!(d.template_format, "f-string");
    assert_eq!(d.template_text, "Hi {name}");

    let empty = PromptLayerTemplate { prompt_name: "x".into(), prompt_template: PromptTemplatePayload { messages: vec![] } };
    assert!(matches!(extract_prompt(&empty), Err(PromptLayerError::Parse(ref m)) if m == "messages missing"));
    let no_text = PromptLayerTemplate {
        prompt_name: "x".into(),
        prompt_template: PromptTemplatePayload {
            messages: vec![PromptMessage {
                input_variables: vec![],
                template_format: "jinja2".into(),
                content: vec![PromptContent { id: None, annotations: None, text: None }],
            }],
        },
    };
    assert!(matches!(extract_prompt(&no_text), Err(PromptLayerError::Parse(ref m)) if m == "text missing"));
}

#[test]
fn missing_variables_are_listed() {
    let d = data("f-string", "{a}{b}", vec!["a", "b"]);
    match validate_variables(&d, &vars(vec![("b", "2")])) {
        Err(PromptLayerError::Parse(m)) => assert_eq!(m, "Missing variables for prompt 'p': [\"a\"]"),
        other => panic!("unexpected {:?}", other),
    }
    assert!(validate_variables(&d, &vars(vec![("a", "1"), ("b", "2")])).is_ok());
}

#[test]
fn f_strings_are_substituted() {
    let d = data("f-string", "Hello {name}, {name}!", vec!["name"]);
    assert_eq!(render_f_string(&d, &vars(vec![("name", "Ann")])).unwrap(), "Hello Ann, Ann!");
    let left = data("f-string", "Hello {name} {other}", vec!["name"]);
    assert_eq!(parse_message(render_f_string(&left, &vars(vec![("name", "Ann")]))), "f-string contains unresolved placeholders");
    assert_eq!(parse_message(render_f_string(&d, &vars(vec![]))), "Missing variable in f-string: name");
}

#[test]
fn prompts_render_by_format() {
    let j = data("jinja2", "Hi {{ who }}", vec!["who"]);
    assert_eq!(render_prompt(&j, &vars(vec![("who", "Bo")])).unwrap(), "Hi Bo");
    assert_eq!(render_jinja(&j, &vars(vec![("who", "Bo")])).unwrap(), "Hi Bo");
    let f = data("f-string", "Hi {who}", vec!["who"]);
    assert_eq!(render_prompt(&f, &vars(vec![("who", "Bo")])).unwrap(), "Hi Bo");
    let other = data("mustache", "Hi", vec![]);
    assert_eq!(parse_message(render_prompt(&other, &vars(vec![]))), "Unsupported template format: mustache");
    let broken = data("jinja2", "Hi {{ who", vec![]);
    assert!(matches!(render_jinja(&broken, &vars(vec![])), Err(PromptLayerError::Parse(_))));
}

#[test]
fn lookups_go_from_plain_to_labelled_to_foldered() {
    let t = PromptTemplate::SelectionUtilsSystemPrompt;
    let ls = template_lookups(t, None, "staging");
    assert_eq!(ls.len(), 3);
    assert!(ls.iter().all(|l| l.template_name == "selection_utils_system_prompt"));
    assert!(ls[0].label.is_none() && ls[0].folder_path.is_none());
    assert_eq!(ls[1].label.as_deref(), Some("staging"));
    assert!(ls[1].folder_path.is_none());
    assert_eq!(ls[2].label.as_deref(), Some("staging"));
    assert_eq!(ls[2].folder_path.as_deref(), Some("selection-utils"));
    let given = template_lookups(t, Some("beta"), "staging");
    assert_eq!(given[1].label.as_deref(), Some("beta"));

    let q = fetch_query(&ls[2]);
    assert_eq!(
        q,
        vec![
            ("template_name".to_string(), "selection_utils_system_prompt".to_string()),
            ("label".to_string(), "staging".to_string()),
            ("folder_path".to_string(), "selection-utils".to_string()),
        ]
    );
    assert_eq!(fetch_query(&ls[0]).len(), 1);
}

#[test]
fn client_settings_and_addresses() {
    assert_eq!(base_url_or_default(None), "https://api.promptlayer.com");
    assert_eq!(base_url_or_default(Some("http://x".into())), "http://x");
    assert_eq!(environment_or_default(None), "prod");
    assert_eq!(templates_url("http://x"), "http://x/templates/get");
    assert_eq!(authorization_value("k"), "Bearer k");
    assert!(matches!(template_not_found(PromptTemplate::PromptPreamble), PromptLayerError::NotFound(ref n) if n == "prompt_preamble"));
}

#[test]
fn risky_template_forms_are_recognised() {
    assert!(may_not_return("{{ when | date(format=\"%Y\") }}"));
    assert!(may_not_return("{{ when |date }}"));
    assert!(may_not_return("{% filter date %}x{% endfilter %}"));
    assert!(may_not_return("{% for i in range(end=3, step_by=0) %}{% endfor %}"));
    assert!(!may_not_return("Update the candidate date: {{ day }}"));
    assert!(!may_not_return("Hello {{ name }}, you know now"));
}

#[test]
fn self_calling_macros_includes_and_imports_are_refused() {
    assert!(may_not_return("{% macro f() %}{{ self::f() }}{% endmacro f %}{{ self::f() }}"));
    assert!(may_not_return("{% include \"__tera_one_off\" %}"));
    assert!(may_not_return("{%- include 'x' -%}"));
    assert!(may_not_return("{% import \"__tera_one_off\" as m %}"));
    assert!(may_not_return("{% raw %}{{ '{% endraw %}"));
}

#[test]
fn risky_arithmetic_and_filters_are_refused() {
    assert!(may_not_return("{{ x + y }}"));
    assert!(may_not_return("{{ a % -1 }}"));
    assert!(may_not_return("{% set z = 1.5 %}"));
    assert!(may_not_return("{{ x | abs }}"));
    assert!(may_not_return("{{ x | int(base=1) }}"));
    assert!(may_not_return("{{ get_random(end=0) }}"));
    assert!(may_not_return("{{ \"}}\" ~ x - y }}"));
}

#[test]
fn prose_strings_comments_and_whitespace_control_pass() {
    assert!(!may_not_return("Rate 50% - or more + extra: {{ score }}"));
    assert!(!may_not_return("{{- name -}} and {%- if ok -%}yes{%- endif -%}"));
    assert!(!may_not_return("{% if kind == \"a-b+c%\" %}x{% endif %}"));
    assert!(!may_not_return("{# a + b, include, self::f() #}{{ x }}"));
    assert!(!may_not_return("{{ candidates | join(sep=', ') }} {{ update_time }} {{ integer }}"));
    assert!(!may_not_return("{% for x in xs %}{{ loop.index }}{% endfor %}"));
}
