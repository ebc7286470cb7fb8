use swift_bridge_ir::declarations::{
    HostLang, OpaqueForeignTypeDeclaration, TypeDeclaration, TypeDeclarations,
};
use swift_bridge_ir::generate_function_swift_calls_rust::indent_lines;
use swift_bridge_ir::text::{
    lines, rsplit_outside, same, starts_with, strip_prefix, strip_suffix, trim, trim_end,
};

const SAMPLES: [&str; 12] = [
    "",
    " ",
    "a",
    " a b ",
    "\u{3000}\u{a0}\tä\u{2028}",
    "\u{200b}a\u{85}",
    "\n\r\n",
    "a\nb\r\nc",
    "a\r\r\n\nb\r",
    "Result < Result < x , y > >",
    ",,a,",
    "  \u{1680}",
];

#[test]
fn trimming_agrees_with_std() {
    for sample in SAMPLES {
        assert_eq!(trim(sample), sample.trim());
        assert_eq!(trim_end(sample), sample.trim_end());
    }
}

#[test]
fn other_blanks_are_no_white_space() {
    assert_eq!(trim("\u{200b}x\u{180e}"), "\u{200b}x\u{180e}");
}

#[test]
fn the_white_space_characters() {
    let expected: Vec<u32> = (0x9..=0xd)
        .chain([0x20, 0x85, 0xa0, 0x1680])
        .chain(0x2000..=0x200a)
        .chain([0x2028, 0x2029, 0x202f, 0x205f, 0x3000])
        .collect();
    let actual: Vec<u32> =
        ('\0'..=char::MAX).filter(|c| c.is_whitespace()).map(|c| c as u32).collect();
    assert_eq!(actual, expected);
}

#[test]
fn stripping_agrees_with_std() {
    for sample in SAMPLES {
        for pattern in ["Result < ", " >", ",", "a", " ", ""] {
            assert_eq!(starts_with(sample, pattern), sample.starts_with(pattern));
            assert_eq!(strip_prefix(sample, pattern), sample.strip_prefix(pattern).unwrap_or(sample));
            assert_eq!(strip_suffix(sample, pattern), sample.strip_suffix(pattern).unwrap_or(sample));
        }
    }
}

#[test]
fn split_without_brackets_agrees_with_std() {
    for sample in SAMPLES {
        if sample.contains('<') {
            continue;
        }
        for delimiter in [',', 'a', '\n', ' '] {
            assert_eq!(rsplit_outside(sample, delimiter), sample.rsplit_once(delimiter));
        }
    }
}

#[test]
fn split_outside_of_brackets() {
    assert_eq!(rsplit_outside("a,(b,c)", ','), Some(("a", "(b,c)")));
    assert_eq!(rsplit_outside("a,<[b,{c,d}],e>", ','), Some(("a", "<[b,{c,d}],e>")));
    assert_eq!(rsplit_outside("a,b->c", ','), Some(("a", "b->c")));
    assert_eq!(rsplit_outside("a,<b->c,d>", ','), Some(("a", "<b->c,d>")));
    assert_eq!(rsplit_outside("a,{b>c,d}", ','), Some(("a", "{b>c,d}")));
    assert_eq!(rsplit_outside("a,{b<c,d}", ','), Some(("a", "{b<c,d}")));
    assert_eq!(rsplit_outside("((a,b", ','), Some(("((a", "b")));
    assert_eq!(rsplit_outside("ä,ö,", ','), Some(("ä,ö", "")));
}

#[test]
fn split_where_no_brackets_balance() {
    assert_eq!(rsplit_outside("(a,b)", ','), Some(("(a", "b)")));
    assert_eq!(rsplit_outside("(a,b]", ','), Some(("(a", "b]")));
    assert_eq!(rsplit_outside("a,(b,c]", ','), Some(("a,(b", "c]")));
    assert_eq!(rsplit_outside("a,b>", ','), Some(("a", "b>")));
    assert_eq!(rsplit_outside("(ab)", ','), None);
}

#[test]
fn lines_agree_with_std() {
    for sample in SAMPLES {
        assert_eq!(lines(sample), sample.lines().collect::<Vec<_>>());
    }
}

#[test]
fn same_text() {
    assert!(same("", ""));
    assert!(same("äb", "äb"));
    assert!(!same("a", "b"));
    assert!(!same("a", "ab"));
}

#[test]
fn indented_lines_keep_empty_ones() {
    assert_eq!(indent_lines("a {\n    b\n\n}\n", ""), "    a {\n        b\n\n    }");
    assert_eq!(indent_lines("a\nb", "  "), "      a\n      b");
    assert_eq!(indent_lines("", "  "), "");
    assert_eq!(indent_lines("a\n   \n", ""), "    a");
}

#[test]
fn indenting_keeps_the_lines() {
    let body = "x {\n\n    y\n})";
    let indented = indent_lines(body, "    ");
    let placed: Vec<String> = body
        .lines()
        .map(|line| if line.is_empty() { String::new() } else { format!("        {line}") })
        .collect();
    assert_eq!(lines(&indented), placed);
}

#[test]
fn indented_lines_with_carriage_returns() {
    assert_eq!(indent_lines("a\r\r\nb\r\n\r\nc\t\n ", "  "), "      a\r\n      b\n\n      c");
    for body in SAMPLES {
        for line in lines(&indent_lines(body, "\t")) {
            assert!(line.is_empty() || line.starts_with("\t    "));
        }
    }
}

#[test]
fn later_declarations_replace_earlier_ones() {
    let mut types = TypeDeclarations::default();
    assert!(types.get("Foo").is_none());
    types.insert("Foo".to_string(), TypeDeclaration::Shared);
    types.insert(
        "Bar".to_string(),
        TypeDeclaration::Opaque(OpaqueForeignTypeDeclaration {
            ty: "Bar".to_string(),
            host_lang: HostLang::Swift,
        }),
    );
    assert!(matches!(types.get("Foo"), Some(TypeDeclaration::Shared)));
    types.insert(
        "Foo".to_string(),
        TypeDeclaration::Opaque(OpaqueForeignTypeDeclaration {
            ty: "Foo".to_string(),
            host_lang: HostLang::Rust,
        }),
    );
    match types.get("Foo") {
        Some(TypeDeclaration::Opaque(opaque)) => {
            assert_eq!(opaque.ty, "Foo");
            assert!(opaque.host_lang.is_rust());
            assert!(!opaque.host_lang.is_swift());
        }
        _ => panic!("Foo was declared again"),
    }
    assert!(matches!(types.get("Bar"), Some(TypeDeclaration::Opaque(_))));
}
