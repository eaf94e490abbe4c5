use base64::engine::general_purpose::STANDARD;
use base64::Engine;
use tg_adapter::event::{FileSource, ImageSource};
use tg_adapter::media::{
    base64_payload, data_of_file_url, data_of_image_url, decode_base64_image, decoded_image,
    input_file_from_image, input_file_from_source, non_empty, Base64Error, InputData, InputFile,
    PrepareError, UrlError,
};

fn text(s: &str) -> Option<String> {
    Some(s.to_string())
}

fn file(data: InputData, file_name: Option<&str>) -> Result<InputFile, PrepareError> {
    Ok(InputFile { data, file_name: file_name.map(|s| s.to_string()) })
}

#[test]
fn empty_values_count_as_absent() {
    assert_eq!(non_empty(None), None);
    assert_eq!(non_empty(text("")), None);
    assert_eq!(non_empty(text(" ")), text(" "));
}

#[test]
fn identifier_goes_before_the_source() {
    let source = FileSource::Url("not a url".to_string());
    assert_eq!(
        input_file_from_source(source, text("a.txt"), text("ID")),
        file(InputData::FileId("ID".to_string()), Some("a.txt"))
    );
    let source = ImageSource::Base64("!".to_string());
    assert_eq!(
        input_file_from_image(source, text("ID")),
        file(InputData::FileId("ID".to_string()), None)
    );
}

#[test]
fn files_come_from_their_sources() {
    assert_eq!(
        input_file_from_source(FileSource::Id("X".to_string()), text(""), text("")),
        file(InputData::FileId("X".to_string()), None)
    );
    assert_eq!(
        input_file_from_source(FileSource::Path("/tmp/a".to_string()), text("b"), None),
        file(InputData::File("/tmp/a".to_string()), Some("b"))
    );
    assert_eq!(
        input_file_from_source(FileSource::Url("HTTPS://Example.com/a b".to_string()), None, None),
        file(InputData::Url("https://example.com/a%20b".to_string()), None)
    );
}

#[test]
fn images_come_from_their_sources() {
    assert_eq!(
        input_file_from_image(ImageSource::Id("X".to_string()), None),
        file(InputData::FileId("X".to_string()), None)
    );
    assert_eq!(
        input_file_from_image(ImageSource::Path("p".to_string()), text("")),
        file(InputData::File("p".to_string()), None)
    );
    assert_eq!(
        input_file_from_image(ImageSource::Url("https://example.com".to_string()), None),
        file(InputData::Url("https://example.com/".to_string()), None)
    );
    assert_eq!(
        input_file_from_image(ImageSource::Base64("aGVsbG8=".to_string()), None),
        file(InputData::Memory(b"hello".to_vec()), None)
    );
}

#[test]
fn refused_urls_say_why() {
    let cases = [
        ("not a url", UrlError::RelativeUrlWithoutBase),
        ("", UrlError::RelativeUrlWithoutBase),
        ("http://", UrlError::EmptyHost),
        ("http://a:99999/", UrlError::InvalidPort),
        ("http://1.2.3.999/", UrlError::InvalidIpv4Address),
        ("http://[::zz]/", UrlError::InvalidIpv6Address),
        ("http://a<b/", UrlError::IdnaError),
        ("foo://a b/", UrlError::InvalidDomainCharacter),
    ];
    for (url, cause) in cases {
        assert_eq!(
            input_file_from_source(FileSource::Url(url.to_string()), None, None),
            Err(PrepareError::InvalidFileUrl { url: url.to_string(), cause })
        );
        assert_eq!(
            input_file_from_image(ImageSource::Url(url.to_string()), None),
            Err(PrepareError::InvalidImageUrl { url: url.to_string(), cause })
        );
    }
}

#[test]
fn url_outcomes_are_passed_on() {
    let normal = "https://a/".to_string();
    assert_eq!(data_of_file_url("u".to_string(), Ok(normal.clone())), Ok(InputData::Url(normal.clone())));
    assert_eq!(data_of_image_url("u".to_string(), Ok(normal.clone())), Ok(InputData::Url(normal)));
    let cause = UrlError::Overflow;
    assert_eq!(
        data_of_file_url("u".to_string(), Err(cause)),
        Err(PrepareError::InvalidFileUrl { url: "u".to_string(), cause })
    );
    assert_eq!(
        data_of_image_url("u".to_string(), Err(cause)),
        Err(PrepareError::InvalidImageUrl { url: "u".to_string(), cause })
    );
}

#[test]
fn base64_text_of_an_image() {
    assert_eq!(base64_payload("aGk="), "aGk=");
    assert_eq!(base64_payload("  aGk=\n"), "aGk=");
    assert_eq!(base64_payload("data:image/png;base64,aGk="), "aGk=");
    assert_eq!(base64_payload("data:image/png;base64, aGk= "), "aGk=");
    assert_eq!(base64_payload("base64,a,b"), "a,b");
    assert_eq!(base64_payload("data:image/png,aGk="), "data:image/png,aGk=");
    assert_eq!(base64_payload("aGk=,base64,"), "aGk=,base64,");
    assert_eq!(base64_payload(",base64"), ",base64");
    assert_eq!(base64_payload("base64,"), "");
    assert_eq!(base64_payload(""), "");
}

#[test]
fn images_are_decoded() {
    assert_eq!(decode_base64_image("data:image/png;base64,aGVsbG8="), Ok(b"hello".to_vec()));
    assert_eq!(decode_base64_image(" aGVsbG8= "), Ok(b"hello".to_vec()));
    assert_eq!(decode_base64_image("data:image/png;base64,"), Ok(vec![]));
    assert_eq!(decode_base64_image("+/+/"), Ok(vec![0xfb, 0xff, 0xbf]));
}

#[test]
fn decoding_undoes_encoding() {
    let all: Vec<u8> = (0..=255).rev().collect();
    for bytes in [&all[..0], &all[..1], &all[..2], &all[..3], &all[7..200], &all[..]] {
        let encoded = STANDARD.encode(bytes);
        let spaced = format!("\u{2003}\n\t{encoded} \r\n\u{a0}");
        for s in [encoded, spaced] {
            assert_eq!(decode_base64_image(&s), Ok(bytes.to_vec()));
            let url = format!("data:image/png;base64,{s}");
            assert_eq!(decode_base64_image(&url), Ok(bytes.to_vec()));
            assert_eq!(
                input_file_from_image(ImageSource::Base64(url), text("")),
                file(InputData::Memory(bytes.to_vec()), None)
            );
        }
    }
    assert_eq!(decode_base64_image("Zm9vYmFy"), Ok(b"foobar".to_vec()));
    assert_eq!(decode_base64_image("Zm9vYmE="), Ok(b"fooba".to_vec()));
    assert_eq!(decode_base64_image("Zm9vYg=="), Ok(b"foob".to_vec()));
}

#[test]
fn refused_base64_says_why() {
    let cases = [
        ("aG!s", Base64Error::InvalidByte(2, b'!')),
        ("a", Base64Error::InvalidLength(1)),
        ("aGVsbG9=", Base64Error::InvalidLastSymbol(6, b'9')),
        ("aGVsbG8", Base64Error::InvalidPadding),
    ];
    for (data, cause) in cases {
        assert_eq!(decode_base64_image(data), Err(PrepareError::InvalidBase64(cause)));
        assert_eq!(
            input_file_from_image(ImageSource::Base64(data.to_string()), None),
            Err(PrepareError::InvalidBase64(cause))
        );
    }
}

#[test]
fn decoding_outcomes_are_passed_on() {
    assert_eq!(decoded_image(Ok(vec![1, 2])), Ok(vec![1, 2]));
    let cause = Base64Error::InvalidPadding;
    assert_eq!(decoded_image(Err(cause)), Err(PrepareError::InvalidBase64(cause)));
}

#[test]
fn preparing_errors_in_words() {
    let cause = UrlError::EmptyHost;
    let url = "http://".to_string();
    assert_eq!(
        PrepareError::InvalidFileUrl { url: url.clone(), cause }.message(),
        "invalid file URL: http://"
    );
    assert_eq!(
        PrepareError::InvalidImageUrl { url, cause }.message(),
        "invalid image URL: http://"
    );
    assert_eq!(
        PrepareError::InvalidBase64(Base64Error::InvalidPadding).message(),
        "invalid base64 image data"
    );
}
