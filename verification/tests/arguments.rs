use prompt_pipe::arguments::{classify, get_parsed_arguments, Assembler, Flag, Mode};
use prompt_pipe::text::{join_strings, parse_port};

fn tokens(words: &[&str]) -> Vec<String> {
    words.iter().map(|w| w.to_string()).collect()
}

#[test]
fn user_flag_collects_following_tokens() {
    let args = get_parsed_arguments(&tokens(&["--user", "a", "b", "c"]));
    assert_eq!(args.user, "a b c");
    assert_eq!(args.system, "");
    assert_eq!(args.model, None);
    assert_eq!(args.url, None);
    assert_eq!(args.port, None);
}

#[test]
fn plain_tokens_default_to_user() {
    let args = get_parsed_arguments(&tokens(&["shorten", "this"]));
    assert_eq!(args.user, "shorten this");
    assert_eq!(args.system, "");
}

#[test]
fn no_tokens_give_empty_arguments() {
    let args = get_parsed_arguments(&Vec::new());
    assert_eq!(args.user, "");
    assert_eq!(args.system, "");
    assert_eq!(args.model, None);
    assert_eq!(args.url, None);
    assert_eq!(args.port, None);
}

#[test]
fn system_flag_switches_mode() {
    let args = get_parsed_arguments(&tokens(&[
        "first", "--system", "be", "brief", "--user", "sum", "up", "--system", "please",
    ]));
    assert_eq!(args.user, "first sum up");
    assert_eq!(args.system, "be brief please");
}

#[test]
fn scalar_flags_keep_the_active_mode() {
    let args = get_parsed_arguments(&tokens(&[
        "--system", "s1", "--model", "llama3", "s2", "--url", "http://host", "s3", "--port",
        "8080", "s4",
    ]));
    assert_eq!(args.system, "s1 s2 s3 s4");
    assert_eq!(args.user, "");
    assert_eq!(args.model, Some("llama3".to_string()));
    assert_eq!(args.url, Some("http://host".to_string()));
    assert_eq!(args.port, Some(8080));
}

#[test]
fn value_after_mode_flag_is_taken_as_data() {
    let args = get_parsed_arguments(&tokens(&["--system", "--user", "x", "--user", "--port", "y"]));
    assert_eq!(args.system, "--user x");
    assert_eq!(args.user, "--port y");
    assert_eq!(args.port, None);
}

#[test]
fn value_after_scalar_flag_is_taken_as_data() {
    let args = get_parsed_arguments(&tokens(&["--model", "--user", "x", "--url", "--system", "y"]));
    assert_eq!(args.model, Some("--user".to_string()));
    assert_eq!(args.url, Some("--system".to_string()));
    assert_eq!(args.user, "x y");
    assert_eq!(args.system, "");
}

#[test]
fn user_flag_without_content_gives_empty_user() {
    let args = get_parsed_arguments(&tokens(&["--user"]));
    assert_eq!(args.user, "");
    assert_eq!(args.system, "");
}

#[test]
fn system_flag_without_content_gives_empty_system() {
    let args = get_parsed_arguments(&tokens(&["hello", "--system"]));
    assert_eq!(args.user, "hello");
    assert_eq!(args.system, "");
}

#[test]
fn model_and_url_without_value_are_empty_strings() {
    let args = get_parsed_arguments(&tokens(&["x", "--model"]));
    assert_eq!(args.model, Some(String::new()));
    let args = get_parsed_arguments(&tokens(&["x", "--url"]));
    assert_eq!(args.url, Some(String::new()));
}

#[test]
fn last_model_wins() {
    let args = get_parsed_arguments(&tokens(&["--model", "a", "--model", "b", "q"]));
    assert_eq!(args.model, Some("b".to_string()));
    assert_eq!(args.user, "q");
}

#[test]
fn unparseable_port_stays_unset() {
    let args = get_parsed_arguments(&tokens(&["--port", "abc", "--user", "hi"]));
    assert_eq!(args.port, None);
    assert_eq!(args.user, "hi");
}

#[test]
fn unparseable_port_clears_an_earlier_one() {
    let args = get_parsed_arguments(&tokens(&["--port", "80", "--port", "abc"]));
    assert_eq!(args.port, None);
}

#[test]
fn port_flag_without_value_keeps_the_port() {
    let args = get_parsed_arguments(&tokens(&["--port", "80", "--port"]));
    assert_eq!(args.port, Some(80));
    let args = get_parsed_arguments(&tokens(&["--port"]));
    assert_eq!(args.port, None);
}

#[test]
fn empty_tokens_are_joined_too() {
    let args = get_parsed_arguments(&tokens(&["a", "", "b"]));
    assert_eq!(args.user, "a  b");
}

#[test]
fn classify_knows_the_five_flags() {
    assert_eq!(classify("--system"), Some(Flag::System));
    assert_eq!(classify("--user"), Some(Flag::User));
    assert_eq!(classify("--model"), Some(Flag::Model));
    assert_eq!(classify("--url"), Some(Flag::Url));
    assert_eq!(classify("--port"), Some(Flag::Port));
    assert_eq!(classify("--User"), None);
    assert_eq!(classify("-user"), None);
    assert_eq!(classify("--user "), None);
    assert_eq!(classify(""), None);
}

#[test]
fn assembler_reports_tokens_used() {
    let mut assembler = Assembler::new();
    assert_eq!(assembler.mode, Mode::User);
    let value = "v".to_string();
    assert_eq!(assembler.feed(&"plain".to_string(), Some(&value)), 1);
    assert_eq!(assembler.feed(&"--system".to_string(), Some(&value)), 2);
    assert_eq!(assembler.mode, Mode::System);
    assert_eq!(assembler.feed(&"--system".to_string(), None), 1);
    assert_eq!(assembler.feed(&"--port".to_string(), Some(&"9".to_string())), 2);
    assert_eq!(assembler.feed(&"more".to_string(), None), 1);
    assert_eq!(assembler.feed(&"--user".to_string(), None), 1);
    assert_eq!(assembler.mode, Mode::User);
    let args = assembler.finish();
    assert_eq!(args.user, "plain");
    assert_eq!(args.system, "v more");
    assert_eq!(args.port, Some(9));
}

#[test]
fn join_strings_puts_separator_between_neighbours() {
    assert_eq!(join_strings(&Vec::new(), " "), "");
    assert_eq!(join_strings(&tokens(&["one"]), " "), "one");
    assert_eq!(join_strings(&tokens(&["one", "two", "three"]), ", "), "one, two, three");
    assert_eq!(join_strings(&tokens(&["", ""]), "-"), "-");
}

#[test]
fn parse_port_reads_decimal_numbers() {
    assert_eq!(parse_port("0"), Some(0));
    assert_eq!(parse_port("11434"), Some(11434));
    assert_eq!(parse_port("65535"), Some(65535));
    assert_eq!(parse_port("+443"), Some(443));
    assert_eq!(parse_port("00080"), Some(80));
    assert_eq!(parse_port("000000000000000000000065535"), Some(65535));
}

#[test]
fn parse_port_rejects_everything_else() {
    assert_eq!(parse_port(""), None);
    assert_eq!(parse_port("+"), None);
    assert_eq!(parse_port("-"), None);
    assert_eq!(parse_port("abc"), None);
    assert_eq!(parse_port("65536"), None);
    assert_eq!(parse_port("99999999999999999999"), None);
    assert_eq!(parse_port("-1"), None);
    assert_eq!(parse_port("++1"), None);
    assert_eq!(parse_port("1+"), None);
    assert_eq!(parse_port(" 80"), None);
    assert_eq!(parse_port("80 "), None);
    assert_eq!(parse_port("8_0"), None);
    assert_eq!(parse_port("8.0"), None);
    assert_eq!(parse_port("0x50"), None);
    assert_eq!(parse_port("\u{0661}\u{0662}"), None);
}

#[test]
fn parse_port_agrees_with_the_standard_parser() {
    let samples = [
        "", "+", "-", "0", "+0", "-0", "7", "42", "+42", "65535", "65536", "70000", "655350",
        "4294967296", "4294967301", "12a", "a12", "1 2", "\u{ff11}", "+-1", "1e3", "007",
    ];
    for sample in samples {
        assert_eq!(parse_port(sample), sample.parse::<u16>().ok(), "on {:?}", sample);
    }
    for n in 0..=u16::MAX {
        assert_eq!(parse_port(&format!("{}", n)), Some(n));
    }
    for n in 65536u32..70000 {
        assert_eq!(parse_port(&format!("{}", n)), None);
    }
}
