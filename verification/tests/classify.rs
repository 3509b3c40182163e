use howto::response::{classify, classify_all, select_for_execution, CommandOption, ResponseType};

fn opt(command: &str, explanation: &str, confidence: u32) -> CommandOption {
    CommandOption {
        command: command.to_string(),
        explanation: explanation.to_string(),
        confidence,
    }
}

#[test]
fn classify_command_at_boundary() {
    let r = classify(opt("ls", "list", 80));
    match r {
        ResponseType::Command(o) => {
            assert_eq!(o.command, "ls");
            assert_eq!(o.explanation, "list");
            assert_eq!(o.confidence, 80);
        },
        _ => panic!("confidence 0.80 must classify as Command"),
    }
}

#[test]
fn classify_command_high() {
    let r = classify(opt("pwd", "print dir", 100));
    assert!(matches!(r, ResponseType::Command(_)));
}

#[test]
fn classify_script_below_command_boundary() {
    let r = classify(opt("install.sh", "installs things", 79));
    match r {
        ResponseType::ScriptRecommended(c) => assert_eq!(c, "install.sh"),
        _ => panic!("confidence 0.79 must classify as ScriptRecommended"),
    }
}

#[test]
fn classify_script_at_boundary() {
    let r = classify(opt("setup.sh", "sets up", 50));
    assert!(matches!(r, ResponseType::ScriptRecommended(_)));
}

#[test]
fn classify_uncertain_below_script_boundary() {
    let r = classify(opt("rm -rf /", "dangerous", 49));
    match r {
        ResponseType::Uncertain(m) => {
            assert_eq!(m, "Uncertain about command: rm -rf /");
        },
        _ => panic!("confidence 0.49 must classify as Uncertain"),
    }
}

#[test]
fn classify_uncertain_at_zero() {
    let r = classify(opt("foo", "bar", 0));
    assert!(matches!(r, ResponseType::Uncertain(_)));
}

#[test]
fn classify_all_keeps_order() {
    let rs = classify_all(vec![opt("a", "x", 90), opt("b", "y", 60), opt("c", "z", 10)]);
    assert_eq!(rs.len(), 3);
    assert!(matches!(&rs[0], ResponseType::Command(o) if o.command == "a"));
    assert!(matches!(&rs[1], ResponseType::ScriptRecommended(c) if c == "b"));
    assert!(matches!(&rs[2], ResponseType::Uncertain(m) if m == "Uncertain about command: c"));
}

#[test]
fn select_accepts_command() {
    let options = vec![classify(opt("ls", "list", 90))];
    let r = select_for_execution(&options, 1);
    assert_eq!(r.unwrap(), "ls");
}

#[test]
fn select_accepts_script() {
    let options = vec![classify(opt("a", "x", 90)), classify(opt("setup.sh", "s", 60))];
    let r = select_for_execution(&options, 2);
    assert_eq!(r.unwrap(), "setup.sh");
}

#[test]
fn select_rejects_uncertain() {
    let options = vec![classify(opt("mystery", "m", 10))];
    let r = select_for_execution(&options, 1);
    assert_eq!(
        r.unwrap_err(),
        "Cannot execute uncertain command: Uncertain about command: mystery"
    );
}

#[test]
fn select_rejects_out_of_range() {
    let options = vec![classify(opt("ls", "list", 90))];
    assert_eq!(select_for_execution(&options, 0).unwrap_err(), "Invalid selection");
    assert_eq!(select_for_execution(&options, 2).unwrap_err(), "Invalid selection");
}
