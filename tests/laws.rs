use dfmt::{ArgumentKey, ArgumentTypeRequirements, Error, Template, Type, TypedArgumentKey, Value};

fn requirement_of(t: &Template, key: ArgumentKey) -> Vec<bool> {
    let r: ArgumentTypeRequirements = *t.argument_type_requirements(&key).unwrap();
    vec![
        r.display,
        r.debug,
        r.lower_exp,
        r.upper_exp,
        r.lower_hex,
        r.upper_hex,
        r.binary,
        r.pointer,
        r.octal,
        r.width_or_precision_amount,
    ]
}

#[test]
fn two_parses_render_identically() {
    let text = "{a:>w$} and {b:?}";
    let t1 = Template::parse(text).unwrap();
    let t2 = Template::parse(text).unwrap();
    let run = |t: &Template| {
        let mut args = t.arguments();
        args.bind("a", &Value::Signed(-3, 128)).unwrap();
        args.bind("w", &Value::Unsigned(6)).unwrap();
        args.bind("b", &Value::Text("q".to_string())).unwrap();
        args.format().unwrap()
    };
    assert_eq!(run(&t1), run(&t2));
    assert_eq!(run(&t1), "    -3 and \"q\"");
    assert_eq!(t1.to_source(), t2.to_source());
}

#[test]
fn requirements_do_not_depend_on_order() {
    let t1 = Template::parse("{a} {b:x} {a:?} {c:.b$}").unwrap();
    let t2 = Template::parse("{c:.b$} {a:?} {b:x} {a}").unwrap();
    for k in ["a", "b", "c"] {
        let key = ArgumentKey::Name(k.to_string());
        assert_eq!(requirement_of(&t1, key.clone()), requirement_of(&t2, key));
    }
    let b = requirement_of(&t1, ArgumentKey::Name("b".to_string()));
    assert_eq!(b, vec![false, false, false, false, true, false, false, false, false, true]);
    assert_eq!(
        t1.argument_type_requirements(&ArgumentKey::Name("z".to_string())),
        Err(Error::ArgumentNotFound(ArgumentKey::Name("z".to_string())))
    );
}

#[test]
fn any_fill_character_lands_only_in_padding() {
    for fill in ['*', '0', 'ꙮ', ':', ' '] {
        let text = format!("{{:{}^7}}|{{1:{}<4}}", fill, fill);
        let t = Template::parse(&text).unwrap();
        let mut args = t.arguments();
        args.bind(0usize, &Value::Text("ab".to_string())).unwrap();
        args.bind(1usize, &Value::Signed(5, 128)).unwrap();
        let f = fill.to_string();
        assert_eq!(
            args.format().unwrap(),
            format!("{}{}ab{}{}{}|5{}{}{}", f, f, f, f, f, f, f, f)
        );
    }
}

#[test]
fn checked_rebinding_is_rejected() {
    let t = Template::parse("{k} {k:x}").unwrap();
    let mut args = t.arguments();
    args.bind("k", &Value::Unsigned(10)).unwrap();
    assert_eq!(
        args.bind("k", &Value::Unsigned(11)),
        Err(Error::DuplicateArgument(TypedArgumentKey::new(ArgumentKey::Name("k".to_string()), Type::Display)))
    );
    assert_eq!(args.format().unwrap(), "10 a");
}

#[test]
fn smallest_bundle_and_needed_forms() {
    let t = Template::parse("{0}").unwrap();
    let mut args = t.arguments();
    args.bind(0usize, &Value::Bool(true)).unwrap();
    assert_eq!(args.format().unwrap(), "true");

    let t = Template::parse("{0} {0:?}").unwrap();
    let mut args = t.arguments();
    args.bind(0usize, &Value::Char('c')).unwrap();
    assert_eq!(args.format().unwrap(), "c 'c'");

    let t = Template::parse("{0} {0:p}").unwrap();
    let mut args = t.arguments();
    assert_eq!(args.bind(0usize, &Value::Char('c')), Err(Error::UnexpectedArgumentValue));
    assert_eq!(args.format(), Err(Error::ArgumentNotFound(ArgumentKey::Index(0))));
}

#[test]
fn placeholders_between_different_text_require_the_same() {
    let t1 = Template::parse("x {a:e} y {b:.a$} {{").unwrap();
    let t2 = Template::parse("{b:.a$}--{a:e}").unwrap();
    for k in ["a", "b"] {
        let key = ArgumentKey::Name(k.to_string());
        assert_eq!(requirement_of(&t1, key.clone()), requirement_of(&t2, key));
    }
}

#[test]
fn implicit_index_restarts_on_each_parse() {
    let _ = Template::parse("{} {} {}").unwrap();
    let t = Template::parse("{}").unwrap();
    assert_eq!(t.to_source(), "{0}");
}
