//! Files and images to be sent: how the adapter hands them to Telegram.

use crate::event::{FileSource, FileSourceView, ImageSource, ImageSourceView};
use crate::laws::law_encoded_image_is_read;
use crate::text::{
    blank, chars_of, contains_before, find_char, index_of, occurs_in, trim_from, trimmed,
};
use base64::Engine;
use vstd::prelude::*;

verus! {

/// Why a URL is refused.
#[derive(Debug, Clone, Copy, PartialEq, Eq)]
pub enum UrlError {
    EmptyHost,
    IdnaError,
    InvalidPort,
    InvalidIpv4Address,
    InvalidIpv6Address,
    InvalidDomainCharacter,
    RelativeUrlWithoutBase,
    RelativeUrlWithCannotBeABaseBase,
    SetHostOnCannotBeABaseUrl,
    Overflow,
    Other,
}

impl DeepView for UrlError {
    type V = UrlError;

    open spec fn deep_view(&self) -> UrlError {
        *self
    }
}

/// Why base64 text is refused. An offset counts bytes of the text.
#[derive(Debug, Clone, Copy, PartialEq, Eq)]
pub enum Base64Error {
    InvalidByte(usize, u8),
    InvalidLength(usize),
    InvalidLastSymbol(usize, u8),
    InvalidPadding,
}

impl DeepView for Base64Error {
    type V = Base64Error;

    open spec fn deep_view(&self) -> Base64Error {
        *self
    }
}

/// Why a file or an image cannot be sent.
#[derive(Debug, Clone, PartialEq, Eq)]
pub enum PrepareError {
    InvalidFileUrl { url: String, cause: UrlError },
    InvalidImageUrl { url: String, cause: UrlError },
    InvalidBase64(Base64Error),
}

pub enum PrepareErrorView {
    InvalidFileUrl { url: Seq<char>, cause: UrlError },
    InvalidImageUrl { url: Seq<char>, cause: UrlError },
    InvalidBase64(Base64Error),
}

impl DeepView for PrepareError {
    type V = PrepareErrorView;

    open spec fn deep_view(&self) -> PrepareErrorView {
        match self {
            PrepareError::InvalidFileUrl { url, cause } => PrepareErrorView::InvalidFileUrl {
                url: url@,
                cause: *cause,
            },
            PrepareError::InvalidImageUrl { url, cause } => PrepareErrorView::InvalidImageUrl {
                url: url@,
                cause: *cause,
            },
            PrepareError::InvalidBase64(cause) => PrepareErrorView::InvalidBase64(*cause),
        }
    }
}

impl PrepareErrorView {
    /// The error in words, without its cause.
    pub open spec fn text(self) -> Seq<char> {
        match self {
            PrepareErrorView::InvalidFileUrl { url, .. } => "invalid file URL: "@ + url,
            PrepareErrorView::InvalidImageUrl { url, .. } => "invalid image URL: "@ + url,
            PrepareErrorView::InvalidBase64(_) => "invalid base64 image data"@,
        }
    }
}

impl PrepareError {
    /// The error in words, without its cause.
    pub fn message(&self) -> (res: String)
        ensures
            res@ == self.deep_view().text(),
    {
        match self {
            PrepareError::InvalidFileUrl { url, .. } => {
                "invalid file URL: ".to_owned().concat(url.as_str())
            },
            PrepareError::InvalidImageUrl { url, .. } => {
                "invalid image URL: ".to_owned().concat(url.as_str())
            },
            PrepareError::InvalidBase64(_) => "invalid base64 image data".to_owned(),
        }
    }
}

/// The contents of a file to be sent.
#[derive(Debug, Clone, PartialEq, Eq)]
pub enum InputData {
    /// A file that is already on Telegram's servers.
    FileId(String),
    /// A file on this machine, to be uploaded.
    File(String),
    /// A file that Telegram fetches.
    Url(String),
    /// Bytes to be uploaded.
    Memory(Vec<u8>),
}

pub enum InputDataView {
    FileId(Seq<char>),
    File(Seq<char>),
    Url(Seq<char>),
    Memory(Seq<u8>),
}

impl DeepView for InputData {
    type V = InputDataView;

    open spec fn deep_view(&self) -> InputDataView {
        match self {
            InputData::FileId(id) => InputDataView::FileId(id@),
            InputData::File(path) => InputDataView::File(path@),
            InputData::Url(url) => InputDataView::Url(url@),
            InputData::Memory(bytes) => InputDataView::Memory(bytes@),
        }
    }
}

/// A file to be sent.
#[derive(Debug, Clone, PartialEq, Eq)]
pub struct InputFile {
    pub data: InputData,
    /// The name to send the file under.
    pub file_name: Option<String>,
}

pub struct InputFileView {
    pub data: InputDataView,
    pub file_name: Option<Seq<char>>,
}

impl DeepView for InputFile {
    type V = InputFileView;

    open spec fn deep_view(&self) -> InputFileView {
        InputFileView { data: self.data.deep_view(), file_name: self.file_name.deep_view() }
    }
}

/// The model of a result: that of its value or of its error.
pub open spec fn result_view<T: DeepView, E: DeepView>(res: Result<T, E>) -> Result<T::V, E::V> {
    match res {
        Ok(value) => Ok(value.deep_view()),
        Err(error) => Err(error.deep_view()),
    }
}

/// What `url::Url::parse` returns: the URL in its normal form, or why there is
/// none.
pub uninterp spec fn parsed_url(input: Seq<char>) -> Result<Seq<char>, UrlError>;

/// Calls `url::Url::parse` and writes the URL that it returns as text.
///
/// It is trusted that the outcome depends on the input alone; `parsed_url`
/// names it.
#[verifier::external_body]
fn parse_url(input: &str) -> (res: Result<String, UrlError>)
    ensures
        result_view(res) == parsed_url(input@),
{
    url::Url::parse(input).map(|url| url.into()).map_err(|e| match e {
        url::ParseError::EmptyHost => UrlError::EmptyHost,
        url::ParseError::IdnaError => UrlError::IdnaError,
        url::ParseError::InvalidPort => UrlError::InvalidPort,
        url::ParseError::InvalidIpv4Address => UrlError::InvalidIpv4Address,
        url::ParseError::InvalidIpv6Address => UrlError::InvalidIpv6Address,
        url::ParseError::InvalidDomainCharacter => UrlError::InvalidDomainCharacter,
        url::ParseError::RelativeUrlWithoutBase => UrlError::RelativeUrlWithoutBase,
        url::ParseError::RelativeUrlWithCannotBeABaseBase => UrlError::RelativeUrlWithCannotBeABaseBase,
        url::ParseError::SetHostOnCannotBeABaseUrl => UrlError::SetHostOnCannotBeABaseUrl,
        url::ParseError::Overflow => UrlError::Overflow,
        _ => UrlError::Other,
    })
}

/// The character for the six bits `v`, in the standard alphabet of base64.
pub open spec fn base64_char(v: int) -> char {
    if v < 26 {
        (0x41 + v) as char
    } else if v < 52 {
        (0x61 + v - 26) as char
    } else if v < 62 {
        (0x30 + v - 52) as char
    } else if v == 62 {
        '+'
    } else {
        '/'
    }
}

/// The byte at `k`; zero behind the end.
pub open spec fn byte_or_zero(bytes: Seq<u8>, k: int) -> int {
    if k < bytes.len() {
        bytes[k] as int
    } else {
        0
    }
}

/// The bits of `bytes` from `6 * i` on, six of them: every three bytes make
/// four such groups. Behind the end all bits are zero.
pub open spec fn six_bits(bytes: Seq<u8>, i: int) -> int {
    let k = i / 4 * 3;
    if i % 4 == 0 {
        byte_or_zero(bytes, k) / 4
    } else if i % 4 == 1 {
        byte_or_zero(bytes, k) % 4 * 16 + byte_or_zero(bytes, k + 1) / 16
    } else if i % 4 == 2 {
        byte_or_zero(bytes, k + 1) % 16 * 4 + byte_or_zero(bytes, k + 2) / 64
    } else {
        byte_or_zero(bytes, k + 2) % 64
    }
}

/// `bytes` in base64, with the standard alphabet and padding, as RFC 4648 has
/// it: a character for each six bits that are begun, and `=` up to a multiple
/// of four characters.
pub open spec fn base64_encoded(bytes: Seq<u8>) -> Seq<char> {
    Seq::new(
        (bytes.len() + 2) / 3 * 4,
        |i: int|
            if 6 * i < 8 * bytes.len() {
                base64_char(six_bits(bytes, i))
            } else {
                '='
            },
    )
}

/// What `base64::engine::general_purpose::STANDARD` decodes a text to: the
/// bytes, or why there are none.
pub uninterp spec fn base64_decoded(input: Seq<char>) -> Result<Seq<u8>, Base64Error>;

/// Calls `decode` of `base64::engine::general_purpose::STANDARD`.
///
/// It is trusted that the outcome depends on the input alone (`base64_decoded`
/// names it), and that it is a success exactly where the input is some bytes in
/// base64, with these bytes: the engine has the alphabet of RFC 4648, wants the
/// padding, and refuses bits that are left over. Which error stands for which
/// other input is left to the name.
#[verifier::external_body]
fn decode_base64(input: &str) -> (res: Result<Vec<u8>, Base64Error>)
    ensures
        result_view(res) == base64_decoded(input@),
        forall|bytes: Seq<u8>|
            (result_view(res) == Ok::<Seq<u8>, Base64Error>(bytes)) == (input@
                == #[trigger] base64_encoded(bytes)),
{
    base64::engine::general_purpose::STANDARD.decode(input).map_err(|e| match e {
        base64::DecodeError::InvalidByte(at, byte) => Base64Error::InvalidByte(at, byte),
        base64::DecodeError::InvalidLength(len) => Base64Error::InvalidLength(len),
        base64::DecodeError::InvalidLastSymbol(at, byte) => Base64Error::InvalidLastSymbol(at, byte),
        base64::DecodeError::InvalidPadding => Base64Error::InvalidPadding,
    })
}

/// A value that is there and not empty.
pub open spec fn filled(value: Option<Seq<char>>) -> Option<Seq<char>> {
    match value {
        Some(text) => if text.len() > 0 {
            Some(text)
        } else {
            None
        },
        None => None,
    }
}

/// `value` where it is there and not empty.
pub fn non_empty(value: Option<String>) -> (res: Option<String>)
    ensures
        res.deep_view() == filled(value.deep_view()),
{
    match value {
        Some(text) => if text.as_str().is_empty() {
            None
        } else {
            Some(text)
        },
        None => None,
    }
}

/// The base64 text of an image: what stands behind the first comma, where the
/// text before it mentions base64 (as the head of a `data:` URL does), or else
/// all of it; without whitespace at either side.
pub open spec fn base64_text(data: Seq<char>) -> Seq<char> {
    let comma = index_of(data, ',') as int;
    if comma < data.len() && occurs_in("base64"@, data.take(comma)) {
        trimmed(data.skip(comma + 1))
    } else {
        trimmed(data)
    }
}

/// The base64 text of an image.
pub fn base64_payload(data: &str) -> (res: &str)
    ensures
        res@ == base64_text(data@),
{
    let chars = chars_of(data);
    assert(data@.skip(0) == data@);
    let comma = find_char(&chars, 0, ',');
    let needle = chars_of("base64");
    if comma < chars.len() && contains_before(&chars, comma, &needle) {
        trim_from(data, &chars, comma + 1)
    } else {
        trim_from(data, &chars, 0)
    }
}

/// The bytes of an image, from what decoding its base64 text gave.
pub open spec fn image_bytes(decoded: Result<Seq<u8>, Base64Error>) -> Result<
    Seq<u8>,
    PrepareErrorView,
> {
    match decoded {
        Ok(bytes) => Ok(bytes),
        Err(cause) => Err(PrepareErrorView::InvalidBase64(cause)),
    }
}

/// The bytes of an image, from what decoding its base64 text gave.
pub fn decoded_image(decoded: Result<Vec<u8>, Base64Error>) -> (res: Result<Vec<u8>, PrepareError>)
    ensures
        result_view(res) == image_bytes(result_view(decoded)),
{
    match decoded {
        Ok(bytes) => Ok(bytes),
        Err(cause) => Err(PrepareError::InvalidBase64(cause)),
    }
}

/// The bytes of an image that is given as base64 text, alone or behind the
/// head of a `data:` URL.
///
/// Decoding undoes encoding, whatever whitespace stands around the text and
/// whatever head stands before it; and nothing else is decoded.
pub fn decode_base64_image(data: &str) -> (res: Result<Vec<u8>, PrepareError>)
    ensures
        result_view(res) == image_bytes(base64_decoded(base64_text(data@))),
        forall|bytes: Seq<u8>|
            (result_view(res) == Ok::<Seq<u8>, PrepareErrorView>(bytes)) == (base64_text(data@)
                == #[trigger] base64_encoded(bytes)),
        forall|bytes: Seq<u8>, before: Seq<char>, after: Seq<char>|
            blank(before) && blank(after) && data@ == #[trigger] (before + base64_encoded(bytes)
                + after) ==> result_view(res) == Ok::<Seq<u8>, PrepareErrorView>(bytes),
        forall|bytes: Seq<u8>, head: Seq<char>, before: Seq<char>, after: Seq<char>|
            !head.contains(',') && occurs_in("base64"@, head) && blank(before) && blank(after)
                && data@ == #[trigger] (head + seq![','] + before + base64_encoded(bytes) + after)
                ==> result_view(res) == Ok::<Seq<u8>, PrepareErrorView>(bytes),
{
    let res = decoded_image(decode_base64(base64_payload(data)));
    proof {
        let ok = |bytes: Seq<u8>| result_view(res) == Ok::<Seq<u8>, PrepareErrorView>(bytes);
        assert forall|bytes: Seq<u8>, before: Seq<char>, after: Seq<char>|
            blank(before) && blank(after) && data@ == #[trigger] (before + base64_encoded(bytes)
                + after) implies ok(bytes) by {
            law_encoded_image_is_read(bytes, seq![], before, after);
        }
        assert forall|bytes: Seq<u8>, head: Seq<char>, before: Seq<char>, after: Seq<char>|
            !head.contains(',') && occurs_in("base64"@, head) && blank(before) && blank(after)
                && data@ == #[trigger] (head + seq![','] + before + base64_encoded(bytes)
                + after) implies ok(bytes) by {
            law_encoded_image_is_read(bytes, head, before, after);
        }
    }
    res
}

/// A file at a URL, from what parsing the URL gave.
pub open spec fn file_url_data(url: Seq<char>, parsed: Result<Seq<char>, UrlError>) -> Result<
    InputDataView,
    PrepareErrorView,
> {
    match parsed {
        Ok(normal) => Ok(InputDataView::Url(normal)),
        Err(cause) => Err(PrepareErrorView::InvalidFileUrl { url, cause }),
    }
}

/// An image at a URL, from what parsing the URL gave.
pub open spec fn image_url_data(url: Seq<char>, parsed: Result<Seq<char>, UrlError>) -> Result<
    InputDataView,
    PrepareErrorView,
> {
    match parsed {
        Ok(normal) => Ok(InputDataView::Url(normal)),
        Err(cause) => Err(PrepareErrorView::InvalidImageUrl { url, cause }),
    }
}

/// A file at a URL, from what parsing the URL gave.
pub fn data_of_file_url(url: String, parsed: Result<String, UrlError>) -> (res: Result<
    InputData,
    PrepareError,
>)
    ensures
        result_view(res) == file_url_data(url@, result_view(parsed)),
{
    match parsed {
        Ok(normal) => Ok(InputData::Url(normal)),
        Err(cause) => Err(PrepareError::InvalidFileUrl { url, cause }),
    }
}

/// An image at a URL, from what parsing the URL gave.
pub fn data_of_image_url(url: String, parsed: Result<String, UrlError>) -> (res: Result<
    InputData,
    PrepareError,
>)
    ensures
        result_view(res) == image_url_data(url@, result_view(parsed)),
{
    match parsed {
        Ok(normal) => Ok(InputData::Url(normal)),
        Err(cause) => Err(PrepareError::InvalidImageUrl { url, cause }),
    }
}

/// The contents of a file: by its identifier where there is one, or else from
/// its source.
pub open spec fn file_data(source: FileSourceView, file_id: Option<Seq<char>>) -> Result<
    InputDataView,
    PrepareErrorView,
> {
    match filled(file_id) {
        Some(id) => Ok(InputDataView::FileId(id)),
        None => match source {
            FileSourceView::Id(id) => Ok(InputDataView::FileId(id)),
            FileSourceView::Path(path) => Ok(InputDataView::File(path)),
            FileSourceView::Url(url) => file_url_data(url, parsed_url(url)),
        },
    }
}

/// A file to be sent: its contents, and its name where it has one.
pub open spec fn file_input(
    source: FileSourceView,
    file_name: Option<Seq<char>>,
    file_id: Option<Seq<char>>,
) -> Result<InputFileView, PrepareErrorView> {
    match file_data(source, file_id) {
        Ok(data) => Ok(InputFileView { data, file_name: filled(file_name) }),
        Err(error) => Err(error),
    }
}

/// The contents of an image: by its identifier where there is one, or else
/// from its source.
pub open spec fn image_data(source: ImageSourceView, file_id: Option<Seq<char>>) -> Result<
    InputDataView,
    PrepareErrorView,
> {
    match filled(file_id) {
        Some(id) => Ok(InputDataView::FileId(id)),
        None => match source {
            ImageSourceView::Id(id) => Ok(InputDataView::FileId(id)),
            ImageSourceView::Url(url) => image_url_data(url, parsed_url(url)),
            ImageSourceView::Path(path) => Ok(InputDataView::File(path)),
            ImageSourceView::Base64(data) => match image_bytes(base64_decoded(base64_text(data))) {
                Ok(bytes) => Ok(InputDataView::Memory(bytes)),
                Err(error) => Err(error),
            },
        },
    }
}

/// An image to be sent: its contents, without a name.
pub open spec fn image_input(source: ImageSourceView, file_id: Option<Seq<char>>) -> Result<
    InputFileView,
    PrepareErrorView,
> {
    match image_data(source, file_id) {
        Ok(data) => Ok(InputFileView { data, file_name: None }),
        Err(error) => Err(error),
    }
}

/// A file to be sent.
pub fn input_file_from_source(
    source: FileSource,
    file_name: Option<String>,
    file_id: Option<String>,
) -> (res: Result<InputFile, PrepareError>)
    ensures
        result_view(res) == file_input(
            source.deep_view(),
            file_name.deep_view(),
            file_id.deep_view(),
        ),
{
    let data = match non_empty(file_id) {
        Some(id) => Ok(InputData::FileId(id)),
        None => match source {
            FileSource::Id(id) => Ok(InputData::FileId(id)),
            FileSource::Path(path) => Ok(InputData::File(path)),
            FileSource::Url(url) => {
                let parsed = parse_url(url.as_str());
                data_of_file_url(url, parsed)
            },
        },
    };
    match data {
        Ok(data) => Ok(InputFile { data, file_name: non_empty(file_name) }),
        Err(error) => Err(error),
    }
}

/// An image to be sent. One that is given as its bytes in base64 goes out as
/// these bytes.
pub fn input_file_from_image(source: ImageSource, file_id: Option<String>) -> (res: Result<
    InputFile,
    PrepareError,
>)
    ensures
        result_view(res) == image_input(source.deep_view(), file_id.deep_view()),
        filled(file_id.deep_view()) is None ==> (source.deep_view() matches ImageSourceView::Base64(
            data,
        ) ==> forall|bytes: Seq<u8>|
            (result_view(res) == Ok::<InputFileView, PrepareErrorView>(
                InputFileView { data: InputDataView::Memory(bytes), file_name: None },
            )) == (base64_text(data) == #[trigger] base64_encoded(bytes))),
{
    let data = match non_empty(file_id) {
        Some(id) => Ok(InputData::FileId(id)),
        None => match source {
            ImageSource::Id(id) => Ok(InputData::FileId(id)),
            ImageSource::Url(url) => {
                let parsed = parse_url(url.as_str());
                data_of_image_url(url, parsed)
            },
            ImageSource::Path(path) => Ok(InputData::File(path)),
            ImageSource::Base64(data) => match decode_base64_image(data.as_str()) {
                Ok(bytes) => {
                    assert(bytes.deep_view() == bytes@);
                    Ok(InputData::Memory(bytes))
                },
                Err(error) => Err(error),
            },
        },
    };
    match data {
        Ok(data) => Ok(InputFile { data, file_name: None }),
        Err(error) => Err(error),
    }
}

} // verus!
