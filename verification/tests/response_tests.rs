use assuan::errors::{Custom, GpgErrorCode};
use assuan::{Response, ResponseErr};

#[test]
fn lib_test_response_from() {
    assert_eq!(Response::from("OK"), Response::Okay(None));
    assert_eq!(
        Response::from(format!("{} {}", "OK", "data").as_str()),
        Response::Okay(Some("data".into())),
    );

    assert_eq!(
        Response::from("ERR"),
        Response::Custom(("ERR".into(), None))
    );
    // A non-numeric code token degrades the whole response to Custom.
    assert_eq!(
        Response::from(format!("{} {}", "ERR", "id").as_str()),
        Response::Custom(("ERR".into(), Some("id".into())))
    );
    assert_eq!(
        Response::from(format!("{} {} {}", "ERR", "id", "a description").as_str()),
        Response::Custom(("ERR".into(), Some("id a description".into())))
    );

    assert_eq!(Response::from("S"), Response::Custom(("S".into(), None)));
    assert_eq!(
        Response::from(format!("{} {}", "S", "keyword").as_str()),
        Response::Custom(("S".into(), Some("keyword".into())))
    );
    assert_eq!(
        Response::from(format!("{} {} {}", "S", "keyword", "status information").as_str()),
        Response::S(("keyword".into(), "status information".into()))
    );

    assert_eq!(
        Response::from("INQUIRE"),
        Response::Custom(("INQUIRE".into(), None)),
    );
    assert_eq!(
        Response::from(format!("{} {}", "INQUIRE", "keyword").as_str()),
        Response::Custom(("INQUIRE".into(), Some("keyword".into())))
    );
    assert_eq!(
        Response::from(format!("{} {} {}", "INQUIRE", "keyword", "params").as_str()),
        Response::Inquire(("keyword".into(), "params".into()))
    );

    assert_eq!(Response::from("D"), Response::Custom(("D".into(), None)),);
    assert_eq!(
        Response::from(format!("{} {}", "D", "some data").as_str()),
        Response::D("some data".into()),
    );

    assert_eq!(Response::from("#"), Response::Comment(None),);
    assert_eq!(
        Response::from(format!("{} {}", "#", "comment data").as_str()),
        Response::Comment(Some("comment data".into())),
    );
}

#[test]
fn response_test_response_from() {
    assert_eq!(Response::from("OK"), Response::Okay(None));
    assert_eq!(
        Response::from(format!("{} {}", "OK", "data").as_str()),
        Response::Okay(Some("data".into())),
    );

    assert_eq!(
        Response::from("ERR"),
        Response::Custom(("ERR".into(), None))
    );
    assert_eq!(
        Response::from("ERR 16383"),
        Response::Error((ResponseErr::Gpg(GpgErrorCode::Eof), None))
    );
    assert_eq!(
        Response::from("ERR 16383 with description"),
        Response::Error((
            ResponseErr::Gpg(GpgErrorCode::Eof),
            Some("with description".into())
        ))
    );
    assert_eq!(
        Response::from(format!("ERR {} with description", (1 << 15 | 140) + 1).as_str()),
        Response::Error((
            ResponseErr::Custom(Custom((1 << 15 | 140) + 1)),
            Some("with description".into())
        ))
    );

    assert_eq!(Response::from("S"), Response::Custom(("S".into(), None)));
    assert_eq!(
        Response::from("S keyword"),
        Response::Custom(("S".into(), Some("keyword".into())))
    );
    assert_eq!(
        Response::from("S keyword status information"),
        Response::S(("keyword".into(), "status information".into()))
    );

    assert_eq!(
        Response::from("INQUIRE"),
        Response::Custom(("INQUIRE".into(), None)),
    );
    assert_eq!(
        Response::from("INQUIRE keyword"),
        Response::Custom(("INQUIRE".into(), Some("keyword".into())))
    );
    assert_eq!(
        Response::from("INQUIRE keyword params"),
        Response::Inquire(("keyword".into(), "params".into()))
    );

    assert_eq!(Response::from("D"), Response::Custom(("D".into(), None)),);
    assert_eq!(
        Response::from("D some data"),
        Response::D("some data".into()),
    );

    assert_eq!(Response::from("#"), Response::Comment(None),);
    assert_eq!(
        Response::from("# comment data"),
        Response::Comment(Some("comment data".into())),
    );

    assert_eq!(Response::from("#"), Response::Comment(None),);
    assert_eq!(
        Response::from("### comment data"),
        Response::Comment(Some("## comment data".into())),
    );
}

#[test]
fn known_code_decodes_symbolically() {
    assert_eq!(
        Response::from("ERR 67"),
        Response::Error((ResponseErr::Gpg(GpgErrorCode::TooLarge), None))
    );
    assert_eq!(
        Response::from("ERR 38 boom"),
        Response::Error((
            ResponseErr::Gpg(GpgErrorCode::Unexpected),
            Some("boom".into())
        ))
    );
    assert_eq!(
        Response::from("ERR 0"),
        Response::Error((ResponseErr::Gpg(GpgErrorCode::NoError), None))
    );
}

#[test]
fn unknown_numeric_code_is_custom_with_exact_value() {
    assert_eq!(
        Response::from("ERR 42"),
        Response::Error((ResponseErr::Custom(Custom(42)), None))
    );
    assert_eq!(
        Response::from("ERR 100000"),
        Response::Error((ResponseErr::Custom(Custom(100000)), None))
    );
}

#[test]
fn out_of_range_code_falls_back_to_unknown_errno() {
    // Larger than any 32-bit code.
    assert_eq!(
        Response::from("ERR 99999999999999"),
        Response::Error((ResponseErr::Gpg(GpgErrorCode::UnknownErrno), None))
    );
    // Negative.
    assert_eq!(
        Response::from("ERR -7 oops"),
        Response::Error((
            ResponseErr::Gpg(GpgErrorCode::UnknownErrno),
            Some("oops".into())
        ))
    );
}

#[test]
fn response_render_forms() {
    assert_eq!(Response::Okay(None).render(), "OK");
    assert_eq!(Response::Okay(Some("done".into())).render(), "OK done");
    assert_eq!(
        Response::Error((ResponseErr::Gpg(GpgErrorCode::Eof), None)).render(),
        "ERR 16383"
    );
    assert_eq!(
        Response::Error((
            ResponseErr::Gpg(GpgErrorCode::TooLarge),
            Some("line too long".into())
        ))
        .render(),
        "ERR 67 line too long"
    );
    assert_eq!(
        Response::Error((ResponseErr::Custom(Custom(32909)), None)).render(),
        "ERR 32909"
    );
    assert_eq!(
        Response::S(("keyword".into(), "status information".into())).render(),
        "S keyword status information"
    );
    assert_eq!(Response::D("some data".into()).render(), "D some data");
    assert_eq!(
        Response::Inquire(("keyword".into(), "params".into())).render(),
        "INQUIRE keyword params"
    );
    assert_eq!(Response::Comment(None).render(), "#");
    assert_eq!(Response::Comment(Some("note".into())).render(), "# note");
    assert_eq!(
        Response::Custom(("X".into(), Some("y".into()))).render(),
        "X y"
    );
    assert_eq!(Response::Custom(("X".into(), None)).render(), "X");
}

#[test]
fn well_formed_responses_round_trip() {
    let samples = vec![
        Response::Okay(None),
        Response::Okay(Some("done".into())),
        Response::Error((ResponseErr::Gpg(GpgErrorCode::Eof), None)),
        Response::Error((
            ResponseErr::Gpg(GpgErrorCode::Unexpected),
            Some("broken pipe".into()),
        )),
        Response::Error((ResponseErr::Custom(Custom(32909)), Some("custom".into()))),
        Response::S(("keyword".into(), "status information".into())),
        Response::Inquire(("keyword".into(), "params".into())),
        Response::D("some data".into()),
        Response::Comment(None),
        Response::Comment(Some("note".into())),
    ];
    for response in samples {
        let line = response.render();
        assert_eq!(Response::from(line.as_str()), response);
    }
}

#[test]
fn error_code_values() {
    assert_eq!(GpgErrorCode::Eof.code(), 16383);
    assert_eq!(GpgErrorCode::UnknownErrno.code(), 16382);
    assert_eq!(GpgErrorCode::MissingErrno.code(), 16381);
    assert_eq!(GpgErrorCode::TooLarge.code(), 67);
    assert_eq!(GpgErrorCode::Unexpected.code(), 38);
    assert_eq!(GpgErrorCode::NoError.code(), 0);
    assert_eq!(GpgErrorCode::General.code(), 1);
}

#[test]
fn code_lookup_round_trip() {
    let samples = vec![
        GpgErrorCode::NoError,
        GpgErrorCode::General,
        GpgErrorCode::Unexpected,
        GpgErrorCode::TooLarge,
        GpgErrorCode::MissingErrno,
        GpgErrorCode::UnknownErrno,
        GpgErrorCode::Eof,
    ];
    for code in samples {
        assert_eq!(assuan::errors::code_lookup(code.code()), Some(code));
    }
    assert_eq!(assuan::errors::code_lookup(42), None);
    assert_eq!(assuan::errors::code_lookup(32909), None);
}
