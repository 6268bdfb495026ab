use fsapi::error::InternalError;
use fsapi::number::{decimal, signed_decimal};
use fsapi::value::Value;
use fsapi::xml::{tokenize, XmlEvent};
use quick_xml::events::Event;
use quick_xml::Reader;

/// What quick-xml itself reads as the text of the element that opens the
/// document.
fn text_by_reader(document: &str) -> Option<String> {
    let mut reader = Reader::from_str(document);
    reader.trim_text(true);
    let mut buf = Vec::new();
    let name = match reader.read_event(&mut buf) {
        Ok(Event::Start(e)) => e.name().to_vec(),
        _ => return None,
    };
    reader.read_text(&name, &mut Vec::new()).ok()
}

fn documents() -> Vec<String> {
    let pieces = [
        "<c8_array>",
        "</c8_array>",
        "<b>",
        "</b>",
        "<x/>",
        "text",
        " ",
        "&amp;",
        "&bogus;",
        "<!-- note -->",
        "<![CDATA[raw]]>",
        "</other>",
        "<",
    ];
    let mut documents = vec![String::from("<c8_array>")];
    let mut last = documents.clone();
    for _ in 0..4 {
        let mut next = Vec::new();
        for document in &last {
            for piece in pieces {
                next.push(format!("{}{}", document, piece));
            }
        }
        documents.extend(next.iter().cloned());
        last = next;
    }
    documents
}

#[test]
fn text_of_an_element_agrees_with_the_reader() {
    let documents = documents();
    assert!(documents.len() > 30000);
    for document in documents {
        let events = tokenize(&document);
        let expected = match text_by_reader(&document) {
            Some(text) => Ok(Value::Text(text)),
            None => Err(InternalError::Xml),
        };
        let decoded = Value::from_events(&events, 0).map(|(value, _)| value);
        assert_eq!(decoded, expected, "{}", document);
    }
}

#[test]
fn value_ends_where_the_reader_stands_after_its_text() {
    for document in documents() {
        let events = tokenize(&document);
        if let Ok((_, next)) = Value::from_events(&events, 0) {
            let mut reader = Reader::from_str(&document);
            reader.trim_text(true);
            let name = match reader.read_event(&mut Vec::new()) {
                Ok(Event::Start(e)) => e.name().to_vec(),
                _ => unreachable!(),
            };
            reader.read_text(&name, &mut Vec::new()).unwrap();
            let mut rest = Vec::new();
            loop {
                let event = match reader.read_event(&mut Vec::new()) {
                    Ok(Event::Start(e)) => XmlEvent::Start(
                        e.name().to_vec(),
                        e.attributes().next().map(|a| a.map(|a| a.value.into_owned()).ok()),
                    ),
                    Ok(Event::End(e)) => XmlEvent::End(e.name().to_vec()),
                    Ok(Event::Empty(e)) => XmlEvent::Empty(e.name().to_vec()),
                    Ok(Event::Text(e)) => {
                        XmlEvent::Text(e.escaped().to_vec(), e.unescape_and_decode(&reader).ok())
                    }
                    Ok(Event::Eof) => XmlEvent::Eof,
                    Ok(_) => XmlEvent::Other,
                    Err(_) => XmlEvent::Failed,
                };
                let done = matches!(event, XmlEvent::Eof | XmlEvent::Failed);
                rest.push(event);
                if done {
                    break;
                }
            }
            assert_eq!(&events[next..], &rest[..], "{}", document);
        }
    }
}

#[test]
fn reader_goes_on_with_the_end_after_the_end() {
    for document in ["", "<a>", "<a></b>", "<a/>text", "<"] {
        let mut reader = Reader::from_str(document);
        reader.trim_text(true);
        let mut ended = false;
        for _ in 0..10 {
            let mut buf = Vec::new();
            let event = reader.read_event(&mut buf);
            if ended {
                assert!(matches!(event, Ok(Event::Eof)), "{}", document);
            }
            if matches!(event, Ok(Event::Eof) | Err(_)) {
                ended = true;
            }
        }
        assert!(ended);
    }
}

#[test]
fn decimal_agrees_with_the_standard_library() {
    for n in (0..70000u64).chain([4294967295, 4294967296, 9999999999, 18446744073709551615]) {
        assert_eq!(decimal(n), n.to_string());
    }
    for n in (-70000..70000i64).chain([-9223372036854775808, 9223372036854775807]) {
        assert_eq!(signed_decimal(n), n.to_string());
    }
}
