use telemetry_engine::checks::table::CheckInfo;
use telemetry_engine::js::js_str;
use telemetry_engine::js::steps_to_js;
use telemetry_engine::page::generate_html;
use telemetry_engine::page::SCENARIOS_JS;
use telemetry_engine::scenario::run_scenario;
use telemetry_engine::scenario::StepData;
use telemetry_engine::scenario::VarInfo;
use telemetry_engine::snapshot::EntityState;

fn row(a: &str, b: &str, c: &str) -> (String, String, String) {
    (a.to_string(), b.to_string(), c.to_string())
}

#[test]
fn literals() {
    assert_eq!(js_str(""), "\"\"");
    assert_eq!(js_str("plain — text"), "\"plain — text\"");
    assert_eq!(js_str("a\"b\\c"), "\"a\\\"b\\\\c\"");
    assert_eq!(js_str("one\ntwo\r\nthree"), "\"one two three\"");
    assert_eq!(js_str("\\\""), "\"\\\\\\\"\"");
}

#[test]
fn no_steps() {
    assert_eq!(steps_to_js(&[]), "[\n]");
}

#[test]
fn one_step_word_for_word() {
    let step = StepData {
        seq: 12,
        ts: 345,
        user: "a\"b".to_string(),
        event: "RoleAssigned",
        group: "grp".to_string(),
        group_label: "label".to_string(),
        is_deferred: true,
        check: CheckInfo {
            rule: "rule".to_string(),
            lookup: vec![row("k", "v", "ok"), row("k2", "v2", "fail")],
            result: "pass",
            result_text: "text".to_string(),
            result_detail: "detail".to_string(),
        },
        variances: vec![VarInfo {
            severity: "warning",
            rule: "r".to_string(),
            detail: "d".to_string(),
        }],
        state_snap: vec![
            (
                "e1".to_string(),
                EntityState { domain: "Thermal", fields: vec![row("x", "y", "z"), row("p", "q", "r")] },
            ),
            ("e2".to_string(), EntityState { domain: "Identity", fields: vec![] }),
        ],
        phases: vec![("lab", "head", "body")],
        history: vec![(1, 2, "First"), (12, 345, "RoleAssigned")],
    };
    let expected = "[
  {
    seq:12,ts:345,user:\"a\\\"b\",event:\"RoleAssigned\",
    group:\"grp\",group_label:\"label\",is_deferred:true,
    check:{
      rule:\"rule\",
      lookup:[
        [\"k\",\"v\",\"ok\"],
        [\"k2\",\"v2\",\"fail\"],
      ],
      result:\"pass\",result_text:\"text\",result_detail:\"detail\",
    },
    variances:[
      {severity:\"warning\",rule:\"r\",detail:\"d\"},
    ],
    state:{
      \"e1\":{domain:\"Thermal\",fields:[[\"x\",\"y\",\"z\"],[\"p\",\"q\",\"r\"],]},
      \"e2\":{domain:\"Identity\",fields:[]},
    },
    history:[
      {seq:1,ts:2,event:\"First\"},
      {seq:12,ts:345,event:\"RoleAssigned\"},
    ],
    phases:[
      {label:\"lab\",heading:\"head\",body:\"body\"},
    ],
  },
]";
    assert_eq!(steps_to_js(&[step]), expected);
}

/// The steps of two lists stand one behind the other between one pair of brackets.
#[test]
fn steps_in_two_parts() {
    let steps = run_scenario();
    let first = steps_to_js(&steps[..7]);
    let second = steps_to_js(&steps[7..]);
    let whole = format!("{}{}", &first[..first.len() - 1], &second[2..]);
    assert_eq!(steps_to_js(&steps), whole);
}

#[test]
fn demonstration_as_script() {
    let js = steps_to_js(&run_scenario());
    assert!(js.starts_with(
        "[\n  {\n    seq:1,ts:1000,user:\"svc_alpha\",event:\"RoleAssigned\",\n    group:\"svc_alpha\",group_label:\"Scenario A — Legitimate Variation\",is_deferred:false,\n"
    ));
    assert_eq!(js.matches("\n  {\n").count(), 15);
    assert_eq!(js.matches("{severity:\"critical\"").count(), 6);
    assert_eq!(js.matches("{severity:\"warning\"").count(), 2);
    assert!(js.ends_with("    ],\n  },\n]"));
}

#[test]
fn page_holds_steps_and_scenarios() {
    let page = generate_html("[1,2]", "[3]");
    assert!(page.starts_with("<!DOCTYPE html>\n<html lang=\"en\">\n<head>\n"));
    assert!(page.contains("\n<script>\nconst STEPS=[1,2];\nconst SCENARIOS=[3];\n\nconst WINDOW_SECS = 300;\n"));
    assert!(page.ends_with("</script>\n</body>\n</html>"));
    assert!(page.contains("<title>Auth Chain Integrity Engine</title>\n  <style>\n"));
    assert!(page.contains("</style>\n</head>\n<body>\n<div id=\"violation-flash\"></div>\n"));
    assert_eq!(page.matches("function storyCenter(").count(), 1);
    assert_eq!(page.matches("function renderPayloadJson(").count(), 1);
    assert_eq!(page.matches("function updateState(").count(), 1);
    assert_eq!(page.matches("function printReport(").count(), 1);
}

/// The scenarios that the page lists declare as many variances as the run shows.
#[test]
fn scenarios_declare_what_the_run_shows() {
    let steps = run_scenario();
    for (id, label, expected) in [
        ("A", "Scenario A \\u2014 Legitimate Variation", 0),
        ("B", "Scenario B \\u2014 Privilege Misuse", 2),
        ("C", "Scenario C \\u2014 Silent Scheduler Bias", 3),
        ("D", "Scenario D \\u2014 Automation Amplification", 3),
    ] {
        let line = SCENARIOS_JS.lines().find(|l| l.contains(&format!("id:\"{}\"", id))).unwrap();
        assert!(line.contains(&format!("label:\"{}\"", label)));
        assert!(line.contains(&format!("expected:{}}}", expected)));
        let shown: usize = steps
            .iter()
            .filter(|s| s.group_label == label.replace("\\u2014", "—"))
            .map(|s| s.variances.len())
            .sum();
        assert_eq!(shown, expected);
    }
}
