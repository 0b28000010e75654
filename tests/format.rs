use dfmt::{Alignment, ArgumentKey, ArgumentValue, Error, Precision, Specifier, Template, Type, TypedArgumentKey, Value, Width};

fn render(template: &str, values: Vec<(ArgumentKey, Value)>) -> Result<String, Error> {
    let t = Template::parse(template)?;
    let mut args = t.arguments();
    for (k, v) in values {
        args.bind(k, &v)?;
    }
    args.format()
}

fn idx(i: usize) -> ArgumentKey {
    ArgumentKey::Index(i)
}

fn name(s: &str) -> ArgumentKey {
    ArgumentKey::Name(s.to_string())
}

#[test]
fn experimental_formatter() {
    let specifier = Specifier::default()
        .fill_character('*')
        .alignment(Alignment::Center)
        .alternate_form(true)
        .sign(true)
        .pad_zero(true)
        .width(Width::Fixed(100))
        .precision(Precision::Fixed(10))
        .ty(Type::Debug);
    let template = Template::new().specified_argument(0usize, specifier);
    let mut args = template.arguments();
    args.bind(0usize, &Value::Signed(42, 32)).unwrap();
    let result = args.format().unwrap();
    println!("Experimental Formatter: {}", result);
    assert_eq!(result, format!("{:*^+#0100.10?}", 42));
}

#[test]
fn escaped_braces() {
    assert_eq!(render("{{", vec![]).unwrap(), "{");
    assert_eq!(render("}}", vec![]).unwrap(), "}");
    assert_eq!(render("{{{0}}}", vec![(idx(0), Value::Signed(5, 128))]).unwrap(), "{5}");
}

#[test]
fn positional_auto_increment() {
    let vals = vec![
        (idx(0), Value::Text("a".to_string())),
        (idx(1), Value::Text("b".to_string())),
        (idx(2), Value::Text("c".to_string())),
    ];
    assert_eq!(render("{} {} {}", vals).unwrap(), "a b c");
}

#[test]
fn named_and_indexed() {
    let vals = vec![(name("x"), Value::Signed(1, 128)), (idx(0), Value::Signed(2, 128))];
    assert_eq!(render("{x} {} {0}", vals).unwrap(), "1 2 2");
}

#[test]
fn numbers_match_native() {
    let cases: Vec<(&str, String, i128)> = vec![
        ("{:5}", format!("{:5}", 42i128), 42),
        ("{:<5}", format!("{:<5}", 42i128), 42),
        ("{:^5}", format!("{:^5}", 42i128), 42),
        ("{:*^6}", format!("{:*^6}", 42i128), 42),
        ("{:+}", format!("{:+}", 42i128), 42),
        ("{:+}", format!("{:+}", -42i128), -42),
        ("{:08}", format!("{:08}", -42i128), -42),
        ("{:#x}", format!("{:#x}", 255i128), 255),
        ("{:#X}", format!("{:#X}", 255i128), 255),
        ("{:#b}", format!("{:#b}", 255i128), 255),
        ("{:#o}", format!("{:#o}", 255i128), 255),
        ("{:x}", format!("{:x}", -1i128), -1),
        ("{:0>+#10x}", format!("{:0>+#10x}", 255i128), 255),
        ("{:<#10b}", format!("{:<#10b}", 255i128), 255),
        ("{:^#10o}", format!("{:^#10o}", 255i128), 255),
        ("{:#010x}", format!("{:#010x}", 255i128), 255),
        ("{:e}", format!("{:e}", 1234i128), 1234),
        ("{:E}", format!("{:E}", 1200i128), 1200),
        ("{:e}", format!("{:e}", 0i128), 0),
        ("{:.2e}", format!("{:.2e}", 123456i128), 123456),
        ("{:+12.3e}", format!("{:+12.3e}", -987654i128), -987654),
        ("{:?}", format!("{:?}", -7i128), -7),
        ("{:.3}", format!("{:.3}", 7i128), 7),
    ];
    for (t, expected, v) in cases {
        assert_eq!(render(t, vec![(idx(0), Value::Signed(v, 128))]).unwrap(), expected, "template {}", t);
    }
    assert_eq!(
        render("{}", vec![(idx(0), Value::Unsigned(u128::MAX))]).unwrap(),
        format!("{}", u128::MAX)
    );
    assert_eq!(
        render("{}", vec![(idx(0), Value::Signed(i128::MIN, 128))]).unwrap(),
        format!("{}", i128::MIN)
    );
}

#[test]
fn text_matches_native() {
    let s = "héllo";
    let cases: Vec<(&str, String)> = vec![
        ("{}", format!("{}", s)),
        ("{:8}", format!("{:8}", s)),
        ("{:>8}", format!("{:>8}", s)),
        ("{:ꙮ^9}", format!("{:ꙮ^9}", s)),
        ("{:.2}", format!("{:.2}", s)),
        ("{:>6.3}", format!("{:>6.3}", s)),
        ("{:?}", format!("{:?}", s)),
        ("{:08}", format!("{:08}", s)),
    ];
    for (t, expected) in cases {
        assert_eq!(render(t, vec![(idx(0), Value::Text(s.to_string()))]).unwrap(), expected, "template {}", t);
    }
    assert_eq!(render("{:?}", vec![(idx(0), Value::Text("a\"b\n".to_string()))]).unwrap(), format!("{:?}", "a\"b\n"));
    assert_eq!(render("{:>4}", vec![(idx(0), Value::Char('x'))]).unwrap(), format!("{:>4}", 'x'));
    assert_eq!(render("{:?}", vec![(idx(0), Value::Char('\''))]).unwrap(), format!("{:?}", '\''));
    assert_eq!(render("{:^7?}", vec![(idx(0), Value::Bool(true))]).unwrap(), format!("{:^7?}", true));
}

#[test]
fn pointers() {
    let a = 0x1f_usize;
    assert_eq!(render("{:p}", vec![(idx(0), Value::Address(a))]).unwrap(), "0x1f");
    assert_eq!(
        render("{:#p}", vec![(idx(0), Value::Address(a))]).unwrap(),
        format!("{:#0w$x}", a, w = 2 + 2 * std::mem::size_of::<usize>())
    );
    assert_eq!(render("{:>8p}", vec![(idx(0), Value::Address(a))]).unwrap(), "    0x1f");
}

#[test]
fn dynamic_width_and_precision() {
    let vals = vec![
        (name("w"), Value::Signed(10, 128)),
        (name("p"), Value::Signed(2, 128)),
        (idx(0), Value::Text("abcdef".to_string())),
    ];
    assert_eq!(render("{:w$.p$}", vals).unwrap(), format!("{:10.2}", "abcdef"));
    let vals = vec![(idx(0), Value::Signed(3, 128)), (idx(1), Value::Text("abcdef".to_string()))];
    assert_eq!(render("{:.*}", vals).unwrap(), "abc");
    let vals = vec![(name("w"), Value::Signed(-4, 128)), (idx(0), Value::Signed(7, 128))];
    assert_eq!(render("{:w$}", vals).unwrap(), "7");
    let vals = vec![(name("w"), Value::Signed(70000, 128)), (idx(0), Value::Signed(7, 128))];
    assert_eq!(render("{:w$}", vals), Err(Error::UnexpectedArgumentValue));
}

#[test]
fn template_parsing_errors() {
    assert_eq!(Template::parse("Hello }{").unwrap_err(), Error::UnexpectedToken);
    assert_eq!(Template::parse("Hello {").unwrap_err(), Error::UnexpectedToken);
    assert_eq!(Template::parse("Hello }").unwrap_err(), Error::UnexpectedToken);
    assert_eq!(Template::parse("Hello {{{} {").unwrap_err(), Error::UnexpectedToken);
    assert_eq!(Template::parse("{:99999}").unwrap_err(), Error::UnexpectedToken);
    assert_eq!(Template::parse("{:5q}").unwrap_err(), Error::UnexpectedToken);
}

#[test]
fn duplicate_argument() {
    let vals = vec![(name("arg"), Value::Signed(42, 128)), (name("arg"), Value::Text("x".to_string()))];
    assert_eq!(
        render("{arg}", vals).unwrap_err(),
        Error::DuplicateArgument(TypedArgumentKey::new(ArgumentKey::Name("arg".to_string()), Type::Display))
    );
}

#[test]
fn unexpected_argument_value() {
    let vals = vec![(idx(0), Value::Text("x".to_string()))];
    assert_eq!(render("{0} {0:o}", vals).unwrap_err(), Error::UnexpectedArgumentValue);
}

#[test]
fn argument_not_found() {
    let vals = vec![(name("arrg"), Value::Signed(42, 128))];
    assert_eq!(render("{arg}", vals).unwrap_err(), Error::ArgumentNotFound(ArgumentKey::Name("arrg".to_string())));
}

#[test]
fn bundles_through_add_argument_value() {
    let t = Template::parse("{0} {0:x}{1:b}").unwrap();
    let mut args = t.arguments();
    args.add_argument_value(0usize, ArgumentValue::IntegerLike(Value::Unsigned(255))).unwrap();
    assert_eq!(args.format(), Err(Error::ArgumentNotFound(ArgumentKey::Index(1))));
    assert_eq!(
        args.add_argument_value(0usize, ArgumentValue::LowerHex(Value::Unsigned(1))),
        Err(Error::DuplicateArgument(TypedArgumentKey::new(ArgumentKey::Index(0), Type::LowerHex)))
    );
    assert_eq!(
        args.add_argument_value(1usize, ArgumentValue::Binary(Value::Text("a".to_string()))),
        Err(Error::UnexpectedArgumentValue)
    );
    args.add_argument_value(1usize, ArgumentValue::Binary(Value::Signed(5, 128))).unwrap();
    assert_eq!(args.format().unwrap(), "255 ff101");
}

#[test]
fn dynamic_width_and_precision_scientific() {
    let vals = vec![
        (name("w"), Value::Signed(10, 128)),
        (name("p"), Value::Signed(2, 128)),
        (idx(0), Value::Unsigned(314159)),
    ];
    let out = render("{:w$.p$e}", vals).unwrap();
    assert_eq!(out, format!("{:10.2e}", 314159u128));
    assert_eq!(out.chars().count(), 10);
    assert_eq!(out, "    3.14e5");
}

#[test]
fn typed_value_renders_one_field() {
    let av = ArgumentValue::IntegerLike(Value::Signed(-10, 128));
    let o = Specifier::default().alignment(Alignment::Left).width(Width::Fixed(6)).formatting_options();
    let tv = dfmt::TypedValue { argument_value: &av, ty: Type::UpperHex };
    assert_eq!(tv.render(o).unwrap(), format!("{:<6X}", -10i128));
    let tv = dfmt::TypedValue { argument_value: &av, ty: Type::Pointer };
    assert_eq!(tv.render(o), None);
}

#[test]
fn narrow_negative_integers_in_radix_forms() {
    let one = |bits: u32, t: &str| render(t, vec![(idx(0), Value::Signed(-1, bits))]).unwrap();
    assert_eq!(one(32, "{:x}"), format!("{:x}", -1i32));
    assert_eq!(one(8, "{:#b}"), format!("{:#b}", -1i8));
    assert_eq!(one(16, "{:o}"), format!("{:o}", -1i16));
    assert_eq!(one(64, "{:X}"), format!("{:X}", -1i64));
    assert_eq!(one(128, "{:x}"), format!("{:x}", -1i128));
    assert_eq!(
        render("{:#010x}", vec![(idx(0), Value::Signed(-300, 16))]).unwrap(),
        format!("{:#010x}", -300i16)
    );
    assert_eq!(render("{:x}", vec![(idx(0), Value::Signed(i64::MIN as i128, 64))]).unwrap(), format!("{:x}", i64::MIN));
    assert_eq!(render("{}", vec![(idx(0), Value::Signed(-300, 16))]).unwrap(), "-300");
    assert_eq!(render("{:x}", vec![(idx(0), Value::Signed(255, 8))]).unwrap(), "ff");
}

#[test]
fn scientific_layout() {
    let o = Specifier::default().sign(true).pad_zero(true).width(Width::Fixed(9)).formatting_options();
    assert_eq!(dfmt::scientific_field(false, "1.5e3", o), "+0001.5e3");
    assert_eq!(dfmt::scientific_field(true, "1.5e3", o), "-0001.5e3");
    let o = Specifier::default().alignment(Alignment::Center).fill_character('~').width(Width::Fixed(8)).formatting_options();
    assert_eq!(dfmt::scientific_field(true, "2e0", o), "~~-2e0~~");
}

#[test]
fn index_key_too_large_is_malformed() {
    assert_eq!(Template::parse("{99999999999999999999999}").unwrap_err(), Error::UnexpectedToken);
    assert!(Template::parse("{18446744073709551615}").is_ok() || usize::BITS < 64);
}
