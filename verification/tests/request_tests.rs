use assuan::Request;

#[test]
fn lib_test_request_from() {
    assert_eq!(Request::from("BYE"), Request::Bye);
    assert_eq!(Request::from("RESET"), Request::Reset);
    assert_eq!(Request::from("END"), Request::End);
    assert_eq!(Request::from("HELP"), Request::Help);
    assert_eq!(Request::from("QUIT"), Request::Quit);
    assert_eq!(Request::from("CANCEL"), Request::Cancel);
    assert_eq!(Request::from("NOP"), Request::Nop);

    assert_eq!(Request::from("#"), Request::Comment(None));
    assert_eq!(
        Request::from(format!("{} {}", "#", "some content").as_str()),
        Request::Comment(Some("some content".into()))
    );

    assert_eq!(
        Request::from("OPTION"),
        Request::Unknown(("OPTION".into(), None))
    );
    assert_eq!(
        Request::from(format!("{} {}", "OPTION", "OPTION").as_str()),
        Request::Option(("OPTION".into(), None))
    );
    assert_eq!(
        Request::from(format!("{} {} {}", "OPTION", "OPTION", "VALUE").as_str()),
        Request::Option(("OPTION".into(), Some("VALUE".into())))
    );
    assert_eq!(
        Request::from(format!("{} {}={}", "OPTION", "OPTION", "VALUE").as_str()),
        Request::Option(("OPTION".into(), Some("VALUE".into())))
    );

    assert_eq!(Request::from("D"), Request::Unknown(("D".into(), None)));
    assert_eq!(
        Request::from(format!("{} {}", "D", "DATA").as_str()),
        Request::D("DATA".into())
    );

    assert_eq!(
        Request::from("UNKNOWN"),
        Request::Unknown(("UNKNOWN".into(), None))
    );
}

#[test]
fn request_test_request_from() {
    assert_eq!(Request::from("BYE"), Request::Bye);
    assert_eq!(Request::from("RESET"), Request::Reset);
    assert_eq!(Request::from("END"), Request::End);
    assert_eq!(Request::from("HELP"), Request::Help);
    assert_eq!(Request::from("QUIT"), Request::Quit);
    assert_eq!(Request::from("CANCEL"), Request::Cancel);
    assert_eq!(Request::from("NOP"), Request::Nop);

    assert_eq!(Request::from("#"), Request::Comment(None));
    assert_eq!(
        Request::from("# some content"),
        Request::Comment(Some("some content".into()))
    );
    assert_eq!(
        Request::from("#### some content"),
        Request::Comment(Some("### some content".into()))
    );

    assert_eq!(
        Request::from("OPTION"),
        Request::Unknown(("OPTION".into(), None))
    );
    assert_eq!(
        Request::from("OPTION option"),
        Request::Option(("option".into(), None))
    );
    assert_eq!(
        Request::from("OPTION option value"),
        Request::Option(("option".into(), Some("value".into())))
    );
    assert_eq!(
        Request::from("OPTION option=value"),
        Request::Option(("option".into(), Some("value".into())))
    );
    assert_eq!(
        Request::from("OPTION option    =  value"),
        Request::Option(("option".into(), Some("value".into())))
    );

    assert_eq!(Request::from("D"), Request::Unknown(("D".into(), None)));
    assert_eq!(Request::from("D with data"), Request::D("with data".into()));

    assert_eq!(
        Request::from("UNKNOWN"),
        Request::Unknown(("UNKNOWN".into(), None))
    );
}

#[test]
fn zero_arg_keywords_round_trip() {
    let keywords = vec![
        Request::Bye,
        Request::Reset,
        Request::End,
        Request::Help,
        Request::Quit,
        Request::Cancel,
        Request::Nop,
    ];
    for k in keywords {
        let line = k.render();
        assert_eq!(Request::from(line.as_str()), k);
    }
}

#[test]
fn option_forms_agree() {
    let with_equals = Request::from("OPTION name=value");
    let with_space = Request::from("OPTION name value");
    let with_spaced_equals = Request::from("OPTION name   =   value");
    let expected = Request::Option(("name".into(), Some("value".into())));
    assert_eq!(with_equals, expected);
    assert_eq!(with_space, expected);
    assert_eq!(with_spaced_equals, expected);
    assert_eq!(with_equals, with_space);
    assert_eq!(with_space, with_spaced_equals);
}

#[test]
fn bare_option_name_and_bare_keyword() {
    assert_eq!(
        Request::from("OPTION name"),
        Request::Option(("name".into(), None))
    );
    assert_eq!(
        Request::from("OPTION"),
        Request::Unknown(("OPTION".into(), None))
    );
}

#[test]
fn data_payload_and_bare_data_keyword() {
    assert_eq!(Request::from("D payload"), Request::D("payload".into()));
    assert_eq!(Request::from("D"), Request::Unknown(("D".into(), None)));
}

#[test]
fn comment_keeps_contiguous_markers() {
    assert_eq!(
        Request::from("###text"),
        Request::Comment(Some("##text".into()))
    );
}

#[test]
fn request_render_forms() {
    assert_eq!(Request::Bye.render(), "BYE");
    assert_eq!(
        Request::Option(("name".into(), Some("value".into()))).render(),
        "OPTION name=value"
    );
    assert_eq!(Request::Option(("name".into(), None)).render(), "OPTION name");
    assert_eq!(Request::D("payload".into()).render(), "D payload");
    assert_eq!(Request::Comment(None).render(), "#");
    assert_eq!(Request::Comment(Some("note".into())).render(), "# note");
    assert_eq!(
        Request::Unknown(("GETINFO".into(), Some("version".into()))).render(),
        "GETINFO version"
    );
    assert_eq!(Request::Unknown(("GETINFO".into(), None)).render(), "GETINFO");
}

#[test]
fn well_formed_requests_round_trip() {
    let samples = vec![
        Request::D("payload with spaces".into()),
        Request::Comment(Some("##still a comment".into())),
        Request::Comment(None),
        Request::Option(("name".into(), None)),
        Request::Option(("name".into(), Some("value with spaces".into()))),
        Request::Unknown(("GETINFO".into(), Some("version".into()))),
        Request::Unknown(("GETINFO".into(), None)),
    ];
    for request in samples {
        let line = request.render();
        assert_eq!(Request::from(line.as_str()), request);
    }
}

#[test]
fn unknown_keyword_keeps_parameters() {
    assert_eq!(
        Request::from("GETINFO version"),
        Request::Unknown(("GETINFO".into(), Some("version".into())))
    );
}
