use smithy_query::FloatValue;
use smithy_query::Number;
use smithy_query::QueryWriter;

/// Floats reach the library already classified and rendered: NaN and the
/// infinities as the non-finite marker, finite values in ryu's shortest
/// round-trip decimal form.
fn float_number(value: f64) -> Number {
    if value.is_nan() || value.is_infinite() {
        Number::Float(FloatValue::NonFinite)
    } else {
        Number::Float(FloatValue::Finite(
            ryu::Buffer::new().format_finite(value).to_string(),
        ))
    }
}

#[test]
fn no_params() {
    let mut out = String::new();
    let writer = QueryWriter::new(&mut out, "SomeAction", "1.0");
    writer.finish();
    assert_eq!("Action=SomeAction\n&Version=1.0", out);
}

#[test]
fn maps() {
    let mut out = String::new();
    let writer = QueryWriter::new(&mut out, "SomeAction", "1.0");

    let mut map = writer.prefix("MapArg").start_map(false);
    map.entry(&mut out, "bar").string(&mut out, "Bar");
    map.entry(&mut out, "foo").string(&mut out, "Foo");
    map.finish();

    let mut map = writer.prefix("Some.Flattened").start_map(true);
    map.entry(&mut out, "bar").string(&mut out, "Bar");
    map.entry(&mut out, "foo").string(&mut out, "Foo");
    map.finish();

    writer.finish();

    assert_eq!(
        "Action=SomeAction\
        \n&Version=1.0\
        \n&MapArg.entry.1.key=bar\
        \n&MapArg.entry.1.value=Bar\
        \n&MapArg.entry.2.key=foo\
        \n&MapArg.entry.2.value=Foo\
        \n&Some.Flattened.1.key=bar\
        \n&Some.Flattened.1.value=Bar\
        \n&Some.Flattened.2.key=foo\
        \n&Some.Flattened.2.value=Foo\
        ",
        out
    );
}

#[test]
fn lists() {
    let mut out = String::new();
    let writer = QueryWriter::new(&mut out, "SomeAction", "1.0");

    let mut list = writer.prefix("ListArg").start_list(false, None);
    list.entry().string(&mut out, "foo");
    list.entry().string(&mut out, "bar");
    list.entry().string(&mut out, "baz");
    list.finish();

    let mut list = writer.prefix("FlattenedListArg").start_list(true, None);
    list.entry().string(&mut out, "A");
    list.entry().string(&mut out, "B");
    list.finish();

    let mut list = writer
        .prefix("ItemList")
        .start_list(false, Some("item".to_string()));
    list.entry().string(&mut out, "foo");
    list.entry().string(&mut out, "bar");
    list.finish();

    writer.finish();

    assert_eq!(
        "Action=SomeAction\
        \n&Version=1.0\
        \n&ListArg.member.1=foo\
        \n&ListArg.member.2=bar\
        \n&ListArg.member.3=baz\
        \n&FlattenedListArg.1=A\
        \n&FlattenedListArg.2=B\
        \n&ItemList.item.1=foo\
        \n&ItemList.item.2=bar\
        ",
        out
    );
}

#[test]
fn prefixes() {
    let mut out = String::new();
    let writer = QueryWriter::new(&mut out, "SomeAction", "1.0");

    let first = writer.prefix("first");
    let second = first.prefix("second");
    second.string(&mut out, "second_val");
    first.string(&mut out, "first_val");

    writer.finish();

    assert_eq!(
        "Action=SomeAction\
        \n&Version=1.0\
        \n&first.second=second_val\
        \n&first=first_val\
        ",
        out
    );
}

#[test]
fn timestamps() {
    let mut out = String::new();
    let writer = QueryWriter::new(&mut out, "SomeAction", "1.0");

    writer.prefix("epoch_seconds").instant(&mut out, "5.2");
    writer
        .prefix("date_time")
        .instant(&mut out, "2021-05-24T15:34:50.123Z");
    writer
        .prefix("http_date")
        .instant(&mut out, "Wed, 21 Oct 2015 07:28:00 GMT");
    writer.finish();

    assert_eq!(
        "Action=SomeAction\
        \n&Version=1.0\
        \n&epoch_seconds=5.2\
        \n&date_time=2021-05-24T15%3A34%3A50.123Z\
        \n&http_date=Wed%2C%2021%20Oct%202015%2007%3A28%3A00%20GMT\
        ",
        out
    );
}

#[test]
fn numbers() {
    let mut out = String::new();
    let writer = QueryWriter::new(&mut out, "SomeAction", "1.0");

    writer.prefix("PosInt").number(&mut out, Number::PosInt(5));
    writer.prefix("NegInt").number(&mut out, Number::NegInt(-5));
    writer
        .prefix("Infinity")
        .number(&mut out, float_number(f64::INFINITY));
    writer
        .prefix("NegInfinity")
        .number(&mut out, float_number(f64::NEG_INFINITY));
    writer.prefix("NaN").number(&mut out, float_number(f64::NAN));
    writer.prefix("Floating").number(&mut out, float_number(5.2));
    writer.finish();

    assert_eq!(
        "Action=SomeAction\
        \n&Version=1.0\
        \n&PosInt=5\
        \n&NegInt=-5\
        \n&Infinity=\
        \n&NegInfinity=\
        \n&NaN=\
        \n&Floating=5.2\
        ",
        out
    );
}

#[test]
fn booleans() {
    let mut out = String::new();
    let writer = QueryWriter::new(&mut out, "SomeAction", "1.0");

    writer.prefix("IsTrue").boolean(&mut out, true);
    writer.prefix("IsFalse").boolean(&mut out, false);
    writer.finish();

    assert_eq!(
        "Action=SomeAction\
        \n&Version=1.0\
        \n&IsTrue=true\
        \n&IsFalse=false\
        ",
        out
    );
}

#[test]
fn action_version_escaping() {
    let mut out = String::new();
    QueryWriter::new(&mut out, "Some Action", "1 2").finish();
    assert_eq!("Action=Some%20Action\n&Version=1%202", out);
}

#[test]
fn deep_prefixes_compose() {
    let mut out = String::new();
    let writer = QueryWriter::new(&mut out, "A", "1");
    writer
        .prefix("a")
        .prefix("b")
        .prefix("c")
        .string(&mut out, "v");
    writer.finish();
    assert_eq!("Action=A\n&Version=1\n&a.b.c=v", out);
}

#[test]
fn flatten_wins_over_override() {
    let mut out = String::new();
    let writer = QueryWriter::new(&mut out, "A", "1");
    let mut list = writer
        .prefix("L")
        .start_list(true, Some("item".to_string()));
    list.entry().string(&mut out, "x");
    list.finish();
    writer.finish();
    assert_eq!("Action=A\n&Version=1\n&L.1=x", out);
}

#[test]
fn map_value_can_be_omitted() {
    let mut out = String::new();
    let writer = QueryWriter::new(&mut out, "A", "1");
    let mut map = writer.prefix("M").start_map(false);
    let value_writer = map.entry(&mut out, "k");
    drop(value_writer);
    map.finish();
    writer.finish();
    assert_eq!("Action=A\n&Version=1\n&M.entry.1.key=k", out);
}

#[test]
fn duplicate_map_keys_both_appear() {
    let mut out = String::new();
    let writer = QueryWriter::new(&mut out, "A", "1");
    let mut map = writer.prefix("M").start_map(false);
    map.entry(&mut out, "k").string(&mut out, "first");
    map.entry(&mut out, "k").string(&mut out, "second");
    map.finish();
    writer.finish();
    assert_eq!(
        "Action=A\n&Version=1\
        \n&M.entry.1.key=k\n&M.entry.1.value=first\
        \n&M.entry.2.key=k\n&M.entry.2.value=second",
        out
    );
}

#[test]
fn map_keys_are_percent_encoded() {
    let mut out = String::new();
    let writer = QueryWriter::new(&mut out, "A", "1");
    let mut map = writer.prefix("M").start_map(true);
    map.entry(&mut out, "a b").string(&mut out, "c:d");
    map.finish();
    writer.finish();
    assert_eq!(
        "Action=A\n&Version=1\n&M.1.key=a%20b\n&M.1.value=c%3Ad",
        out
    );
}

#[test]
fn integer_extremes() {
    let mut out = String::new();
    let writer = QueryWriter::new(&mut out, "A", "1");
    writer.prefix("Zero").number(&mut out, Number::PosInt(0));
    writer
        .prefix("Max")
        .number(&mut out, Number::PosInt(u64::MAX));
    writer
        .prefix("Min")
        .number(&mut out, Number::NegInt(i64::MIN));
    writer.finish();
    assert_eq!(
        "Action=A\n&Version=1\
        \n&Zero=0\
        \n&Max=18446744073709551615\
        \n&Min=-9223372036854775808",
        out
    );
}

#[test]
fn empty_string_value() {
    let mut out = String::new();
    let writer = QueryWriter::new(&mut out, "A", "1");
    writer.prefix("Empty").string(&mut out, "");
    writer.finish();
    assert_eq!("Action=A\n&Version=1\n&Empty=", out);
}
