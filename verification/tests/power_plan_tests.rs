use amd_freq_guard::power_plan::PlanCommandError;
use amd_freq_guard::power_plan::PowerPlan;
use amd_freq_guard::power_plan::PowerPlanController;
use amd_freq_guard::power_plan::accept_decoded;
use amd_freq_guard::power_plan::check_deletable;
use amd_freq_guard::power_plan::command_outcome;
use amd_freq_guard::power_plan::decode_output;
use amd_freq_guard::power_plan::extract_guid;
use amd_freq_guard::power_plan::guid_from_command;
use amd_freq_guard::power_plan::parse_plan_line;
use amd_freq_guard::power_plan::parse_power_plans;
use amd_freq_guard::power_plan::read_power_plans;

#[test]
fn test_parse_power_plans() {
    let sample_output = r#"
现有电源使用方案 (* Active)
-----------------------------------
电源方案 GUID: 381b4222-f694-41f0-9685-ff5bb260df2e  (平衡)
电源方案 GUID: 8bd00add-abf1-47cf-98b4-0e38e7999415  (我的自定义计划 1) *
电源方案 GUID: cf285094-3f36-42e5-b53a-d0b098d10d8b  (Customized Clock)
"#;

    let plans = parse_power_plans(sample_output).unwrap();
    assert_eq!(plans.len(), 3);
    assert_eq!(plans[1].is_active, true);
    assert_eq!(plans[1].name, "我的自定义计划 1");
}

#[test]
fn parsed_plans_carry_id_name_and_activity() {
    let output = "Existing Power Schemes (* Active)\r\n-----------------------------------\r\nPower Scheme GUID: 381b4222-f694-41f0-9685-ff5bb260df2e  (Balanced) *\r\nPower Scheme GUID: cf285094-3f36-42e5-b53a-d0b098d10d8b  (Customized Clock)\r\n";
    let plans = parse_power_plans(output).unwrap();
    assert_eq!(plans.len(), 2);
    assert_eq!(plans[0].guid, "381b4222-f694-41f0-9685-ff5bb260df2e");
    assert_eq!(plans[0].name, "Balanced");
    assert!(plans[0].is_active);
    assert_eq!(plans[1].guid, "cf285094-3f36-42e5-b53a-d0b098d10d8b");
    assert_eq!(plans[1].name, "Customized Clock");
    assert!(!plans[1].is_active);
}

#[test]
fn lines_before_the_rule_are_not_plans() {
    let output = "Power Scheme GUID: 381b4222-f694-41f0-9685-ff5bb260df2e  (Balanced)\n";
    let plans = parse_power_plans(output).unwrap();
    assert_eq!(plans.len(), 0);
}

#[test]
fn plan_line_without_marker_is_no_plan() {
    assert!(parse_plan_line("nothing to see").is_none());
    assert!(parse_plan_line("GUID:").is_none());
}

#[test]
fn plan_line_without_label_has_empty_name() {
    let plan = parse_plan_line("  GUID: abc  ").unwrap();
    assert_eq!(plan.guid, "abc");
    assert_eq!(plan.name, "");
    assert!(!plan.is_active);
}

#[test]
fn plan_line_with_brackets_the_wrong_way_round_keeps_the_label() {
    let plan = parse_plan_line("GUID: abc  )x( *").unwrap();
    assert_eq!(plan.guid, "abc");
    assert_eq!(plan.name, ")x(");
    assert!(plan.is_active);
}

#[test]
fn plan_ids_resolve_without_regard_to_case() {
    let plans = vec![PowerPlan {
        guid: "8BD00ADD-ABF1-47CF-98B4-0E38E7999415".to_string(),
        name: "custom".to_string(),
        is_active: false,
    }];
    assert!(PowerPlanController::check_if_scheme_is_valid(
        &plans,
        "8bd00add-abf1-47cf-98b4-0e38e7999415"
    ));
    assert!(!PowerPlanController::check_if_scheme_is_valid(
        &plans,
        "8bd00add-abf1-47cf-98b4-0e38e7999416"
    ));
    assert!(!PowerPlanController::check_if_scheme_is_valid(&plans, ""));
}

#[test]
fn listing_bytes_are_decoded_before_they_are_read() {
    let mut bytes: Vec<u8> = Vec::new();
    bytes.extend_from_slice(b"-----------------------------------\r\n");
    bytes.extend_from_slice(b"\xb5\xe7\xd4\xb4\xb7\xbd\xb0\xb8 GUID: 381b4222-f694-41f0-9685-ff5bb260df2e  (\xc6\xbd\xba\xe2) *\r\n");
    let plans = read_power_plans(&bytes).unwrap();
    assert_eq!(plans.len(), 1);
    assert_eq!(plans[0].guid, "381b4222-f694-41f0-9685-ff5bb260df2e");
    assert_eq!(plans[0].name, "平衡");
    assert!(plans[0].is_active);
}

#[test]
fn malformed_listing_bytes_are_refused() {
    let bytes: Vec<u8> = vec![b'a', 0xff, b'b'];
    let result = read_power_plans(&bytes);
    assert!(matches!(result, Err(PlanCommandError::DecodeFailed)));
}

#[test]
fn decoded_output_with_replacements_is_refused() {
    assert!(matches!(
        accept_decoded("x".to_string(), true),
        Err(PlanCommandError::DecodeFailed)
    ));
    assert_eq!(accept_decoded("x".to_string(), false).unwrap(), "x");
}

#[test]
fn decode_output_gives_the_text_of_gbk_bytes() {
    let text = decode_output(b"\xc6\xbd\xba\xe2").unwrap();
    assert_eq!(text, "平衡");
    assert_eq!(text.chars().count(), 2);
}

#[test]
fn guid_is_taken_from_the_first_marked_line() {
    let output = "some heading\r\nPower Scheme GUID: 11111111-2222-3333-4444-555555555555  (Copy)\r\nGUID: other\r\n";
    assert_eq!(
        extract_guid(output).unwrap(),
        "11111111-2222-3333-4444-555555555555  (Copy)"
    );
    assert_eq!(extract_guid("GUID: a GUID: b").unwrap(), "a");
    assert!(extract_guid("no marker here").is_none());
    assert_eq!(extract_guid("GUID:").unwrap(), "");
}

#[test]
fn created_plan_id_comes_from_successful_output() {
    let ok = guid_from_command(true, b"Power Scheme GUID: abc-1\r\n", b"");
    assert_eq!(ok.unwrap(), "abc-1");
    let missing = guid_from_command(true, b"done\r\n", b"");
    assert!(matches!(missing, Err(PlanCommandError::NoGuid)));
    let failed = guid_from_command(false, b"GUID: abc", b"access denied");
    match failed {
        Err(PlanCommandError::Failed(message)) => assert_eq!(message, "access denied"),
        _ => panic!("a failed command must give its error text"),
    }
    let garbled = guid_from_command(false, b"", &[0xff]);
    assert!(matches!(garbled, Err(PlanCommandError::DecodeFailed)));
    let garbled_output = guid_from_command(true, &[0xff], b"");
    assert!(matches!(garbled_output, Err(PlanCommandError::DecodeFailed)));
}

#[test]
fn command_outcome_follows_the_exit_status() {
    assert!(command_outcome(true, b"ignored").is_ok());
    match command_outcome(false, b"\xc6\xbd\xba\xe2") {
        Err(PlanCommandError::Failed(message)) => assert_eq!(message, "平衡"),
        _ => panic!("a failed command must give its error text"),
    }
}

#[test]
fn the_active_plan_cannot_be_deleted() {
    let plans = vec![
        PowerPlan { guid: "a".to_string(), name: "A".to_string(), is_active: true },
        PowerPlan { guid: "b".to_string(), name: "B".to_string(), is_active: false },
    ];
    assert!(matches!(check_deletable(&plans, "a"), Err(PlanCommandError::ActivePlan)));
    assert!(check_deletable(&plans, "b").is_ok());
    assert!(check_deletable(&plans, "c").is_ok());
    assert!(check_deletable(&plans, "A").is_ok());
}

#[test]
fn plan_line_fields_are_set_apart_by_two_spaces() {
    let plan = parse_plan_line("x GUID: id-1   (Name One)").unwrap();
    assert_eq!(plan.guid, "id-1");
    assert_eq!(plan.name, "Name One");
    let plan = parse_plan_line("GUID: id-2  (A (B) C) **").unwrap();
    assert_eq!(plan.name, "A (B) C");
    assert!(plan.is_active);
    let plan = parse_plan_line("GUID: id-3  plain name*").unwrap();
    assert_eq!(plan.name, "plain name");
    assert!(plan.is_active);
    let plan = parse_plan_line("GUID: id-4  (stars**)").unwrap();
    assert_eq!(plan.name, "stars");
    assert!(!plan.is_active);
}

fn reference_plan_line(line: &str) -> Option<(String, String, bool)> {
    let line = line.trim();
    let guid_start = line.find("GUID:")? + 5;
    let remaining = &line[guid_start..];
    let parts: Vec<&str> = remaining.split("  ").filter(|s| !s.is_empty()).collect();
    if parts.is_empty() {
        return None;
    }
    let guid = parts[0].trim().to_string();
    let name_part = parts.get(1).copied().unwrap_or("").trim();
    let is_active = name_part.ends_with('*');
    let bare = name_part.trim_end_matches('*').trim().to_string();
    let name = match (name_part.find('('), name_part.rfind(')')) {
        (Some(start), Some(end)) if start < end => {
            name_part[start + 1..end].trim_end_matches('*').trim().to_string()
        }
        _ => bare,
    };
    Some((guid, name, is_active))
}

fn reference_listing(output: &str) -> Vec<(String, String, bool)> {
    let mut plans = Vec::new();
    let mut found_header = false;
    for line in output.lines() {
        if line.trim().is_empty() {
            continue;
        }
        if line.contains("-----------------------------------") {
            found_header = true;
            continue;
        }
        if found_header && line.contains("GUID:") {
            if let Some(plan) = reference_plan_line(line) {
                plans.push(plan);
            }
        }
    }
    plans
}

#[test]
fn plan_lines_agree_with_the_standard_library() {
    let lines = [
        "",
        "GUID:",
        "GUID:   ",
        "  GUID: a",
        "GUID: a  (b)",
        "GUID: a  (b) *",
        "GUID: a  (b)*",
        "GUID: a   (b (c))  tail",
        "x GUID:a  b c  d",
        "GUID: a  ( spaced )  ",
        "GUID: a  ((*))",
        "GUID: a  )(",
        "GUID: a  \t  (b)",
        "电源方案 GUID: 8bd00add-abf1-47cf-98b4-0e38e7999415  (我的自定义计划 1) *",
        "GUID: GUID: x  (y)",
        "GUID:\u{3000}a\u{3000}  (n)\u{3000}",
        "GUID: a b  (c  d)",
    ];
    for line in lines {
        let got = parse_plan_line(line).map(|p| (p.guid, p.name, p.is_active));
        assert_eq!(got, reference_plan_line(line), "line {:?}", line);
    }
}

#[test]
fn listings_agree_with_the_standard_library() {
    let outputs = [
        "",
        "\n\n",
        "GUID: a  (b)\n",
        "-----------------------------------\nGUID: a  (b)\nGUID: c  (d) *",
        "head\r\n-----------------------------------\r\n\r\nGUID: a  (b)\r\n   \r\nno marker\r\nGUID: c\r\n",
        "x ----------------------------------- GUID: a\nGUID: b  (n)\n",
        "----------------------------------\nGUID: a  (b)\n",
        "-----------------------------------\n-----------------------------------\nGUID: a  (b)",
        "-----------------------------------\nGUID:\nGUID: z  (last)\r",
    ];
    for output in outputs {
        let got: Vec<(String, String, bool)> = parse_power_plans(output)
            .unwrap()
            .into_iter()
            .map(|p| (p.guid, p.name, p.is_active))
            .collect();
        assert_eq!(got, reference_listing(output), "output {:?}", output);
    }
}

#[test]
fn extracted_ids_agree_with_the_standard_library() {
    let outputs = [
        "",
        "GUID:",
        "a\nPower Scheme GUID: 1234  (Copy)\r\nGUID: later",
        "GUID: a GUID: b GUID: c",
        " no \n GUID:x\r\n",
        "guid: lower\nGUID:  spaced  \n",
    ];
    for output in outputs {
        let expected = output
            .lines()
            .find(|line| line.contains("GUID:"))
            .and_then(|line| line.split("GUID:").nth(1))
            .map(|s| s.trim().to_string());
        assert_eq!(extract_guid(output), expected, "output {:?}", output);
    }
}
