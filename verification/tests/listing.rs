use vpm::commands::listing::{
    entry_line, parse_installed, render_installed, InstalledPackage, PackageState, ParseError,
    ParseStage,
};

fn record(name: &str, version: &str, state: PackageState, description: &str) -> InstalledPackage {
    InstalledPackage {
        name: name.to_string(),
        version: version.to_string(),
        state,
        description: description.to_string(),
    }
}

fn failure(stage: ParseStage, line: &str) -> ParseError {
    ParseError { stage, line: line.to_string() }
}

#[test]
fn one_line_gives_one_record() {
    let packages = parse_installed("ii libfoo-1.2.3 A test library.\n").unwrap();
    assert_eq!(packages.len(), 1);
    assert_eq!(packages[0].name, "libfoo");
    assert_eq!(packages[0].version, "1.2.3");
    assert_eq!(packages[0].state, PackageState::Installed);
    assert_eq!(packages[0].description, "A test library.");
}

#[test]
fn unknown_state_code_fails() {
    let out = parse_installed("zz foo-1.0 desc");
    assert_eq!(out, Err(failure(ParseStage::UnknownState, "zz foo-1.0 desc")));
}

#[test]
fn a_bad_line_leaves_no_partial_list() {
    let out = parse_installed("ii a-1 first\nzz foo-1.0 desc\nii b-2 third\n");
    assert_eq!(out, Err(failure(ParseStage::UnknownState, "zz foo-1.0 desc")));
}

#[test]
fn the_first_bad_line_is_reported() {
    let out = parse_installed("ii a-1 first\nii nohyphen desc\nzz foo-1.0 desc\n");
    assert_eq!(out, Err(failure(ParseStage::InvalidNameVersion, "ii nohyphen desc")));
}

#[test]
fn every_state_code_is_decoded() {
    let text = "ii a-1 one\nuu b-2 two\nhr c-3 three\n?? d-4 four\n";
    let expected = vec![
        record("a", "1", PackageState::Installed, "one"),
        record("b", "2", PackageState::Unpacked, "two"),
        record("c", "3", PackageState::HalfRemoved, "three"),
        record("d", "4", PackageState::Unknown, "four"),
    ];
    assert_eq!(parse_installed(text), Ok(expected));
}

#[test]
fn decode_knows_four_codes() {
    assert_eq!(PackageState::decode("ii"), Some(PackageState::Installed));
    assert_eq!(PackageState::decode("uu"), Some(PackageState::Unpacked));
    assert_eq!(PackageState::decode("hr"), Some(PackageState::HalfRemoved));
    assert_eq!(PackageState::decode("??"), Some(PackageState::Unknown));
    for code in ["", "i", "iii", "II", "iu", "rh", "?", "ii ", "zz"] {
        assert_eq!(PackageState::decode(code), None, "{code:?}");
    }
}

#[test]
fn labels() {
    assert_eq!(PackageState::Installed.label(), "Installed");
    assert_eq!(PackageState::Unpacked.label(), "Unpacked");
    assert_eq!(PackageState::HalfRemoved.label(), "Half Removed");
    assert_eq!(PackageState::Unknown.label(), "Unknown");
}

#[test]
fn the_name_ends_at_the_last_hyphen() {
    let packages = parse_installed("ii xorg-server-xwayland-23.2.4_1 X server\n").unwrap();
    assert_eq!(packages[0].name, "xorg-server-xwayland");
    assert_eq!(packages[0].version, "23.2.4_1");
    let packages = parse_installed("ii foo-1.0-2 odd version\n").unwrap();
    assert_eq!(packages[0].name, "foo-1.0");
    assert_eq!(packages[0].version, "2");
    let packages = parse_installed("ii -1 no name\n").unwrap();
    assert_eq!(packages[0].name, "");
    assert_eq!(packages[0].version, "1");
    let packages = parse_installed("ii foo- no version\n").unwrap();
    assert_eq!(packages[0].name, "foo");
    assert_eq!(packages[0].version, "");
}

#[test]
fn the_description_is_trimmed() {
    let packages = parse_installed("ii a-1    spaced   out \t\n").unwrap();
    assert_eq!(packages[0].description, "spaced   out");
    let packages = parse_installed("ii a-1 \n").unwrap();
    assert_eq!(packages[0].description, "");
    let packages = parse_installed("ii a-1 has - hyphen-s\n").unwrap();
    assert_eq!(packages[0].name, "a");
    assert_eq!(packages[0].description, "has - hyphen-s");
}

#[test]
fn each_missing_separator_has_its_stage() {
    assert_eq!(parse_installed("ii"), Err(failure(ParseStage::MissingState, "ii")));
    assert_eq!(parse_installed("ii foo-1.0"), Err(failure(ParseStage::MissingDescription, "ii foo-1.0")));
    assert_eq!(
        parse_installed("ii foo desc"),
        Err(failure(ParseStage::InvalidNameVersion, "ii foo desc"))
    );
    assert_eq!(parse_installed(" ii foo-1 d"), Err(failure(ParseStage::UnknownState, " ii foo-1 d")));
    assert_eq!(parse_installed(" "), Err(failure(ParseStage::UnknownState, " ")));
    assert_eq!(parse_installed("ii  x"), Err(failure(ParseStage::InvalidNameVersion, "ii  x")));
}

#[test]
fn the_state_is_checked_before_the_rest() {
    assert_eq!(parse_installed("zz"), Err(failure(ParseStage::MissingState, "zz")));
    assert_eq!(parse_installed("zz foo"), Err(failure(ParseStage::UnknownState, "zz foo")));
    assert_eq!(parse_installed("ii foo"), Err(failure(ParseStage::MissingDescription, "ii foo")));
}

#[test]
fn empty_lines_and_empty_text_give_nothing() {
    assert_eq!(parse_installed(""), Ok(Vec::new()));
    assert_eq!(parse_installed("\n\n"), Ok(Vec::new()));
    assert_eq!(
        parse_installed("\nii a-1 one\n\nuu b-2 two\n\n"),
        Ok(vec![
            record("a", "1", PackageState::Installed, "one"),
            record("b", "2", PackageState::Unpacked, "two"),
        ])
    );
}

#[test]
fn carriage_returns_before_line_feeds_are_dropped() {
    assert_eq!(
        parse_installed("ii a-1 one\r\nuu b-2 two\r\n"),
        Ok(vec![
            record("a", "1", PackageState::Installed, "one"),
            record("b", "2", PackageState::Unpacked, "two"),
        ])
    );
}

#[test]
fn the_order_of_the_lines_is_kept() {
    let mut text = String::new();
    for i in 0..50 {
        text.push_str(&format!("ii pkg{}-{}.0 number {}\n", 49 - i, i, i));
    }
    let packages = parse_installed(&text).unwrap();
    assert_eq!(packages.len(), 50);
    for (i, p) in packages.iter().enumerate() {
        assert_eq!(p.name, format!("pkg{}", 49 - i));
        assert_eq!(p.version, format!("{i}.0"));
        assert_eq!(p.description, format!("number {i}"));
    }
}

#[test]
fn messages_name_reason_and_line() {
    assert_eq!(ParseStage::MissingState.reason(), "No state or name/version");
    assert_eq!(ParseStage::UnknownState.reason(), "Unknown package state");
    assert_eq!(ParseStage::MissingDescription.reason(), "No name/version or description");
    assert_eq!(ParseStage::InvalidNameVersion.reason(), "Invalid name/version");
    assert_eq!(
        failure(ParseStage::UnknownState, "zz foo-1.0 desc").message(),
        "Unknown package state: zz foo-1.0 desc"
    );
}

#[test]
fn entry_line_puts_the_parts_in_place() {
    assert_eq!(
        entry_line("[1]", "libfoo", "1.2.3", "Installed", "A test library."),
        "[1]    libfoo (1.2.3) [Installed] - A test library."
    );
    assert_eq!(entry_line("", "", "", "", ""), "     () [] - ");
}

#[test]
fn the_list_is_numbered_from_one() {
    colored::control::set_override(false);
    let packages = vec![
        record("a", "1", PackageState::Installed, "one"),
        record("b", "2", PackageState::HalfRemoved, "two"),
    ];
    assert_eq!(
        render_installed(&packages),
        vec![
            "[1]    a (1) [Installed] - one".to_string(),
            "[2]    b (2) [Half Removed] - two".to_string(),
        ]
    );
    assert_eq!(render_installed(&Vec::new()), Vec::<String>::new());
}

#[test]
fn the_list_counts_past_nine() {
    colored::control::set_override(false);
    let packages: Vec<InstalledPackage> =
        (0..12).map(|i| record("p", "0", PackageState::Unknown, &format!("{i}"))).collect();
    let lines = render_installed(&packages);
    assert_eq!(lines.len(), 12);
    assert_eq!(lines[8], "[9]    p (0) [Unknown] - 8");
    assert_eq!(lines[9], "[10]    p (0) [Unknown] - 9");
    assert_eq!(lines[11], "[12]    p (0) [Unknown] - 11");
}
