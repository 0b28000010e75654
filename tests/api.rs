use dfmt::{
    Alignment, ArgumentKey, ArgumentValue, ArgumentsBuilder, DynFmt, Error, Piece, Precision, Specifier,
    Template, ToTemplate, Type, TypedArgumentKey, UncheckedArgumentsBuilder, Value, Width,
};

#[test]
fn template_text_round_trip() {
    let text = "a {{b}} {x:*^+#08.3e} {:.*} {y:w$} {2}";
    let t = Template::parse(text).unwrap();
    assert_eq!(t.to_source(), "a {{b}} {x:*^+#08.3e} {1:.0$} {y:w$} {2}");
    assert_eq!(Specifier::default().to_source(), "");
    assert_eq!(Width::Fixed(12).to_source(), "12");
    assert_eq!(Precision::Dynamic(ArgumentKey::Name("p".to_string())).to_source(), ".p$");
    assert_eq!(Type::UpperHex.to_source(), "X");
    assert_eq!(Alignment::Center.to_source(), "^");
    assert_eq!(ArgumentKey::Index(305).to_source(), "305");
}

#[test]
fn pieces_of_a_template() {
    let ps = Piece::parse("x{}{{").unwrap();
    assert_eq!(ps.len(), 3);
    assert_eq!(ps[0].to_source(), "x");
    assert_eq!(ps[1].to_source(), "{0}");
    assert_eq!(ps[2].to_source(), "{{");
    assert_eq!(Piece::parse("x{").unwrap_err(), Error::UnexpectedToken);
    assert!(Piece::parse("{a{b}").is_err());
}

#[test]
fn specifier_parts() {
    let mut index = 4usize;
    let sp = Specifier::parse("_>-#010.*o", &mut index).unwrap();
    assert_eq!(index, 5);
    assert_eq!(sp.fill_character, '_');
    assert_eq!(sp.alignment, Alignment::Right);
    assert!(!sp.sign);
    assert!(sp.alternate_form);
    assert!(sp.pad_zero);
    assert_eq!(sp.ty, Type::Octal);
    assert_eq!(sp.to_source(), "_>#010.4$o");
    let o = sp.formatting_options();
    assert_eq!(o.width, 10);
    assert_eq!(o.precision, None);
    assert_eq!(Specifier::parse(".", &mut index).unwrap_err(), Error::UnexpectedToken);
    assert_eq!(Specifier::parse("70000", &mut index).unwrap_err(), Error::UnexpectedToken);
}

#[test]
fn builders_fill_a_template() {
    let t = Template::new()
        .literal("Hello, ")
        .argument(0usize)
        .literal("! ")
        .specified_argument("n", Specifier::default().ty(Type::Binary).alternate_form(true));
    let s = t.arguments().builder().display(0usize, Value::Text("World".to_string())).binary("n", Value::Unsigned(5)).format();
    assert_eq!(s.unwrap(), "Hello, World! 0b101");
    let err = t.arguments().builder().display(0usize, Value::Signed(1, 128)).display(0usize, Value::Signed(2, 128)).format();
    assert_eq!(err, Err(Error::DuplicateArgument(TypedArgumentKey::new(ArgumentKey::Index(0), Type::Display))));
    let s = t.arguments().builder_unchecked().display_unchecked(0usize, Value::Signed(1, 128)).display_unchecked(0usize, Value::Signed(2, 128)).binary_unchecked("n", Value::Unsigned(2)).format();
    assert_eq!(s.unwrap(), "Hello, 1! 0b10");
}

#[test]
fn one_call_rendering() {
    let values = vec![
        (ArgumentKey::Index(0), ArgumentValue::IntegerLike(Value::Signed(255, 128))),
        (ArgumentKey::Name("s".to_string()), ArgumentValue::DisplayAndDebug(Value::Text("t".to_string()))),
    ];
    assert_eq!("{0:#X} {s:?} {0}".format(values).unwrap(), "0xFF \"t\" 255");
    let t = "{0}".to_template().unwrap();
    assert_eq!(t.format(vec![(ArgumentKey::Index(0), ArgumentValue::Display(Value::Bool(false)))]).unwrap(), "false");
    assert_eq!("{".to_string().format(vec![]), Err(Error::UnexpectedToken));
    assert_eq!(
        "{0}".format(vec![(ArgumentKey::Index(1), ArgumentValue::Display(Value::Bool(false)))]),
        Err(Error::ArgumentNotFound(ArgumentKey::Index(1)))
    );
}

#[test]
fn error_messages() {
    assert_eq!(Error::ArgumentNotFound(ArgumentKey::Name("a".to_string())).message(), "Argument for key 'a' not found");
    assert_eq!(
        Error::DuplicateArgument(TypedArgumentKey::new(ArgumentKey::Index(3), Type::Debug)).message(),
        "Duplicate argument value for key '3'"
    );
    assert_eq!(Error::UnexpectedToken.message(), "Unexpected token encountered while parsing");
    assert_eq!(Error::UnexpectedArgumentValue.message(), "Unexpected argument value");
    assert_eq!(Error::Fmt.message(), "an error occurred when formatting an argument");
}

#[test]
fn capabilities_and_amounts() {
    let r = ArgumentValue::FloatLike(Value::Signed(1, 128)).fullfills();
    assert!(r.display && r.debug && r.lower_exp && r.upper_exp && !r.lower_hex);
    assert!(ArgumentValue::IntegerLike(Value::Signed(1, 128)).is_well_formed());
    assert!(!ArgumentValue::IntegerLike(Value::Text("x".to_string())).is_well_formed());
    assert_eq!(ArgumentValue::WidthOrPrecisionAmount(Value::Signed(-5, 128)).to_u16(), Some(0));
    assert_eq!(ArgumentValue::Display(Value::Unsigned(65535)).to_u16(), Some(65535));
    assert_eq!(ArgumentValue::Display(Value::Unsigned(65536)).to_u16(), None);
    assert_eq!(ArgumentValue::Display(Value::Text("7".to_string())).to_u16(), None);
    let req = ArgumentTypeRequirementsExt::both();
    assert_eq!(r.meets(&req), Ok(()));
    assert_eq!(req.meets(&r), Err(Error::UnexpectedArgumentValue));
}

struct ArgumentTypeRequirementsExt;

impl ArgumentTypeRequirementsExt {
    fn both() -> dfmt::ArgumentTypeRequirements {
        dfmt::ArgumentTypeRequirements::default().with_display().with_debug()
    }
}

#[test]
fn one_call_rendering_unchecked() {
    let values = vec![
        (ArgumentKey::Index(0), ArgumentValue::Display(Value::Unsigned(1))),
        (ArgumentKey::Index(0), ArgumentValue::Display(Value::Unsigned(2))),
    ];
    assert_eq!("{0}".format_unchecked(values).unwrap(), "1");
    let values = vec![(ArgumentKey::Index(0), ArgumentValue::Display(Value::Unsigned(1)))];
    assert_eq!("{0:x}".format_unchecked(values), Err(Error::ArgumentNotFound(ArgumentKey::Index(0))));
    assert_eq!("}".to_string().format_unchecked(vec![]), Err(Error::UnexpectedToken));
}
