//! PNG encoding, the upload request and what a reply to it means.
//!
//! - No key: the **keyless** (anonymous) path, a temporary upload.
//! - With a key: a **keyed** upload; `expires_in` makes it ephemeral.

use vstd::prelude::*;

use crate::text::to_decimal;

verus! {

/// The multipart field that holds the image.
pub const FILE_FIELD: &'static str = "file";

/// The file name that the image is sent under.
pub const FILE_NAME: &'static str = "clipboard.png";

/// The media type that the image is sent under.
pub const FILE_MIME: &'static str = "image/png";

/// How long a request to the API may take, in seconds.
pub const REQUEST_TIMEOUT_SECS: u64 = 30;

/// Why an upload failed. `Unauthorized` stands apart so that the caller can
/// clear a revoked or expired key and ask for a new sign-in. Messages are safe
/// to show: they never hold the body of a reply.
pub enum UploadError {
    Unauthorized,
    Failed(String),
}

/// What an `UploadError` stands for.
#[verifier::ext_equal]
pub enum UploadErrorView {
    Unauthorized,
    Failed(Seq<char>),
}

impl View for UploadError {
    type V = UploadErrorView;

    open spec fn view(&self) -> UploadErrorView {
        match self {
            UploadError::Unauthorized => UploadErrorView::Unauthorized,
            UploadError::Failed(m) => UploadErrorView::Failed(m@),
        }
    }
}

impl UploadErrorView {
    /// The message to show.
    pub open spec fn message(self) -> Seq<char> {
        match self {
            UploadErrorView::Unauthorized => "Your session has expired."@,
            UploadErrorView::Failed(m) => m,
        }
    }
}

impl UploadError {
    /// The message to show.
    pub fn message(&self) -> (r: String)
        ensures
            r@ == self@.message(),
    {
        match self {
            UploadError::Unauthorized => "Your session has expired.".to_owned(),
            UploadError::Failed(m) => m.clone(),
        }
    }
}

/// What an upload came to: the hosted URL, or the reason why there is none.
pub open spec fn upload_outcome(r: Result<String, UploadError>) -> Result<
    Seq<char>,
    UploadErrorView,
> {
    match r {
        Ok(url) => Ok(url@),
        Err(e) => Err(e@),
    }
}

/// The bytes, or the message, of a result.
pub open spec fn bytes_outcome(r: Result<Vec<u8>, String>) -> Result<Seq<u8>, Seq<char>> {
    match r {
        Ok(bytes) => Ok(bytes@),
        Err(m) => Err(m@),
    }
}

/// The bytes that an RGBA image of this size takes.
pub open spec fn rgba_len(width: u32, height: u32) -> int {
    4 * (width * height)
}

/// Whether a buffer of `len` bytes is no larger than an RGBA image of this size.
pub fn no_larger_than_image(width: u32, height: u32, len: usize) -> (r: bool)
    ensures
        r == (len <= rgba_len(width, height)),
{
    proof {
        assert(width * height <= 0xffff_ffff * 0xffff_ffff) by (nonlinear_arith)
            requires
                width <= 0xffff_ffff,
                height <= 0xffff_ffff,
        ;
    }
    let area: u128 = width as u128 * height as u128;
    len as u128 <= 4 * area
}

/// The PNG file that the `image` crate writes for an RGBA image, or the text of
/// the error with which it refuses to.
pub uninterp spec fn png_encoding(width: u32, height: u32, rgba: Seq<u8>) -> Result<
    Seq<u8>,
    Seq<char>,
>;

/// Hands the pixels to `image::RgbaImage::from_raw` and the image that comes
/// back to `image::DynamicImage::write_to`, in PNG format. Trusted: `from_raw`
/// gives no image exactly when the buffer is too small; what `write_to` writes,
/// or the text of its error, depends on the size and the pixels alone; it writes
/// to memory, so it fails exactly when the image has no pixels. `write_to` panics
/// on a buffer that is too large.
#[verifier::external_body]
fn write_png(width: u32, height: u32, rgba: Vec<u8>) -> (r: Option<Result<Vec<u8>, String>>)
    requires
        rgba@.len() <= rgba_len(width, height),
    ensures
        r is None <==> rgba@.len() < rgba_len(width, height),
        r matches Some(written) ==> bytes_outcome(written) == png_encoding(width, height, rgba@),
        r matches Some(written) ==> (written is Ok <==> width > 0 && height > 0),
{
    let image = image::RgbaImage::from_raw(width, height, rgba)?;
    let mut out = std::io::Cursor::new(Vec::new());
    match image::DynamicImage::ImageRgba8(image).write_to(&mut out, image::ImageFormat::Png) {
        Ok(()) => Some(Ok(out.into_inner())),
        Err(e) => Some(Err(e.to_string())),
    }
}

/// What becomes of an encoding attempt: `None` where the buffer did not hold
/// the image.
pub open spec fn png_outcome(written: Option<Result<Seq<u8>, Seq<char>>>) -> Result<
    Seq<u8>,
    Seq<char>,
> {
    match written {
        None => Err("clipboard image buffer size mismatch"@),
        Some(Ok(png)) => Ok(png),
        Some(Err(m)) => Err("png encode failed: "@ + m),
    }
}

/// Turns an encoding attempt into the PNG file or a message.
pub fn png_result(written: Option<Result<Vec<u8>, String>>) -> (r: Result<Vec<u8>, String>)
    ensures
        bytes_outcome(r) == png_outcome(
            match written {
                None => None,
                Some(w) => Some(bytes_outcome(w)),
            },
        ),
{
    match written {
        None => Err("clipboard image buffer size mismatch".to_owned()),
        Some(Ok(png)) => Ok(png),
        Some(Err(m)) => Err("png encode failed: ".to_owned().concat(m.as_str())),
    }
}

/// What `encode_png` gives for an image.
pub open spec fn encoded(width: u32, height: u32, rgba: Seq<u8>) -> Result<Seq<u8>, Seq<char>> {
    png_outcome(
        if rgba.len() < rgba_len(width, height) {
            None
        } else {
            Some(png_encoding(width, height, rgba))
        },
    )
}

/// Encodes raw RGBA8 bytes (as delivered by the clipboard) to a PNG file. Works
/// exactly when there are pixels and the buffer holds all of them.
pub fn encode_png(width: u32, height: u32, rgba: Vec<u8>) -> (r: Result<Vec<u8>, String>)
    requires
        rgba@.len() <= rgba_len(width, height),
    ensures
        bytes_outcome(r) == encoded(width, height, rgba@),
        r is Ok <==> width > 0 && height > 0 && rgba@.len() == rgba_len(width, height),
        r matches Ok(png) ==> png_encoding(width, height, rgba@) == Ok::<Seq<u8>, Seq<char>>(png@),
{
    png_result(write_png(width, height, rgba))
}

/// Options for a keyed (signed-in) upload.
pub struct KeyedOptions {
    /// Ephemeral image TTL in seconds (when the image itself auto-archives).
    pub expires_in: Option<u64>,
    /// Upload privately (mint a signed URL). Requires a secret key.
    pub private: bool,
    /// Signed-URL lifetime in seconds when `private` (the pasted link's TTL).
    pub sign_expires_in: Option<u64>,
}

impl Default for KeyedOptions {
    fn default() -> (r: KeyedOptions)
        ensures
            r == (KeyedOptions { expires_in: None, private: false, sign_expires_in: None }),
    {
        KeyedOptions { expires_in: None, private: false, sign_expires_in: None }
    }
}

/// A text field of a form.
pub struct FormField {
    pub name: String,
    pub value: String,
}

/// What a `FormField` stands for.
#[verifier::ext_equal]
pub struct FieldView {
    pub name: Seq<char>,
    pub value: Seq<char>,
}

impl View for FormField {
    type V = FieldView;

    open spec fn view(&self) -> FieldView {
        FieldView { name: self.name@, value: self.value@ }
    }
}

/// The views of a list of fields.
pub open spec fn fields_view(fields: Seq<FormField>) -> Seq<FieldView> {
    fields.map_values(|f: FormField| f@)
}

/// The field `name` with a number of seconds in it, where there is one.
pub open spec fn secs_field(name: Seq<char>, secs: Option<u64>) -> Seq<FieldView> {
    match secs {
        Some(n) => seq![FieldView { name, value: crate::text::decimal(n as nat) }],
        None => Seq::empty(),
    }
}

/// The text fields that go with the image. An anonymous upload has none.
pub open spec fn form_fields(keyed: bool, opts: KeyedOptions) -> Seq<FieldView> {
    if !keyed {
        Seq::empty()
    } else if !opts.private {
        secs_field("expires_in"@, opts.expires_in)
    } else {
        secs_field("expires_in"@, opts.expires_in) + seq![
            FieldView { name: "visibility"@, value: "private"@ },
        ] + secs_field("sign_expires_in"@, opts.sign_expires_in)
    }
}

/// An upload request, without the image itself.
pub struct UploadRequest {
    pub url: String,
    pub fields: Vec<FormField>,
    /// The key to send as a bearer token, if any.
    pub bearer: Option<String>,
}

fn push_secs(fields: &mut Vec<FormField>, name: &str, secs: Option<u64>)
    ensures
        fields_view(final(fields)@) == fields_view(old(fields)@) + secs_field(name@, secs),
{
    if let Some(n) = secs {
        fields.push(FormField { name: name.to_owned(), value: to_decimal(n as u128) });
    }
    assert(fields_view(fields@) =~= fields_view(old(fields)@) + secs_field(name@, secs));
}

/// Builds the upload request.
///
/// - `api_key`: `Some` for a keyed upload; `None` for an anonymous temporary one
///   (always public).
/// - `opts`: keyed-only knobs. Ignored when anonymous.
pub fn upload_request(api_base: &str, api_key: Option<&str>, opts: &KeyedOptions) -> (r:
    UploadRequest)
    ensures
        r.url@ == api_base@ + "/v1/images"@,
        fields_view(r.fields@) == form_fields(api_key is Some, *opts),
        match api_key {
            Some(key) => r.bearer matches Some(b) && b@ == key@,
            None => r.bearer is None,
        },
{
    let mut fields: Vec<FormField> = Vec::new();
    assert(fields_view(fields@) =~= Seq::empty());
    if api_key.is_some() {
        push_secs(&mut fields, "expires_in", opts.expires_in);
        assert(fields_view(fields@) =~= secs_field("expires_in"@, opts.expires_in));
        if opts.private {
            let ghost before = fields_view(fields@);
            fields.push(
                FormField { name: "visibility".to_owned(), value: "private".to_owned() },
            );
            assert(fields_view(fields@) =~= before + seq![
                FieldView { name: "visibility"@, value: "private"@ },
            ]);
            push_secs(&mut fields, "sign_expires_in", opts.sign_expires_in);
        }
    }
    UploadRequest {
        url: api_base.to_owned().concat("/v1/images"),
        fields,
        bearer: match api_key {
            Some(key) => Some(key.to_owned()),
            None => None,
        },
    }
}

/// Whether a status says that the request succeeded.
pub open spec fn is_success(status: int) -> bool {
    200 <= status < 300
}

/// The failure that a reply's status stands for, if it stands for one.
pub open spec fn status_failure(status: u16) -> Option<UploadErrorView> {
    if is_success(status as int) {
        None
    } else if status == 401 || status == 403 {
        Some(UploadErrorView::Unauthorized)
    } else if status == 402 {
        Some(
            UploadErrorView::Failed(
                "Private image limit reached — upgrade for unlimited private images."@,
            ),
        )
    } else if status == 413 {
        Some(UploadErrorView::Failed("Image is too large."@))
    } else if status == 429 {
        Some(UploadErrorView::Failed("Rate limit reached — try again shortly."@))
    } else {
        Some(
            UploadErrorView::Failed(
                "Upload failed ("@ + crate::text::decimal(status as nat) + ")."@,
            ),
        )
    }
}

/// Whether a status says that the request succeeded.
pub fn status_is_success(status: u16) -> (r: bool)
    ensures
        r == is_success(status as int),
{
    200 <= status && status < 300
}

/// Tells from its status whether a reply to an upload is a failure, and which.
/// Only after `Ok` is the body of the reply read.
pub fn check_upload_status(status: u16) -> (r: Result<(), UploadError>)
    ensures
        match r {
            Ok(()) => status_failure(status) is None,
            Err(e) => status_failure(status) == Some(e@),
        },
{
    if status_is_success(status) {
        return Ok(());
    }
    if status == 401 || status == 403 {
        return Err(UploadError::Unauthorized);
    }
    let message = match status {
        402 => "Private image limit reached — upgrade for unlimited private images.".to_owned(),
        413 => "Image is too large.".to_owned(),
        429 => "Rate limit reached — try again shortly.".to_owned(),
        _ => "Upload failed (".to_owned().concat(to_decimal(status as u128).as_str()).concat(")."),
    };
    Err(UploadError::Failed(message))
}

/// The hosted URL out of the body of a successful reply. `url` is the URL that
/// the body holds, or the text of the error that reading it gave.
pub fn hosted_url(url: Result<String, String>) -> (r: Result<String, UploadError>)
    ensures
        upload_outcome(r) == match url {
            Ok(u) => Ok::<Seq<char>, UploadErrorView>(u@),
            Err(m) => Err(UploadErrorView::Failed("bad response: "@ + m@)),
        },
{
    match url {
        Ok(u) => Ok(u),
        Err(m) => Err(UploadError::Failed("bad response: ".to_owned().concat(m.as_str()))),
    }
}

/// An anonymous upload sends no options, whatever they are.
pub proof fn anonymous_uploads_ignore_the_options(opts: KeyedOptions)
    ensures
        form_fields(false, opts) == Seq::<FieldView>::empty(),
{
}

/// A signed-URL lifetime is sent for private uploads only.
pub proof fn public_uploads_send_no_signed_lifetime(opts: KeyedOptions, i: int)
    requires
        !opts.private,
        0 <= i < form_fields(true, opts).len(),
    ensures
        form_fields(true, opts)[i].name == "expires_in"@,
{
}

/// A reply is `Unauthorized` exactly when its status is 401 or 403.
pub proof fn only_401_and_403_are_unauthorized(status: u16)
    ensures
        status_failure(status) == Some(UploadErrorView::Unauthorized) <==> status == 401 || status
            == 403,
{
}

/// The file that is handed out is the PNG encoding of the very image that came
/// in: of its own width, its own height and its bytes in their order. Where the
/// encoder fails, its message is handed on; where bytes are missing, nothing is
/// encoded.
pub proof fn the_file_is_the_encoding_of_the_image(
    width: u32,
    height: u32,
    rgba: Seq<u8>,
    png: Seq<u8>,
    message: Seq<char>,
)
    ensures
        rgba.len() >= 4 * (width * height) ==> (encoded(width, height, rgba) == Ok::<
            Seq<u8>,
            Seq<char>,
        >(png) <==> png_encoding(width, height, rgba) == Ok::<Seq<u8>, Seq<char>>(png)),
        rgba.len() >= 4 * (width * height) && png_encoding(width, height, rgba) == Err::<
            Seq<u8>,
            Seq<char>,
        >(message) ==> encoded(width, height, rgba) == Err::<Seq<u8>, Seq<char>>(
            "png encode failed: "@ + message,
        ),
        rgba.len() < 4 * (width * height) ==> encoded(width, height, rgba) == Err::<
            Seq<u8>,
            Seq<char>,
        >("clipboard image buffer size mismatch"@),
{
}

/// An image takes four bytes for each of its pixels: one more row takes four
/// bytes for each column, one more column four for each row.
pub proof fn images_grow_by_four_bytes_a_pixel(width: u32, height: u32)
    ensures
        height < u32::MAX ==> rgba_len(width, (height + 1) as u32) == rgba_len(width, height) + 4
            * width,
        width < u32::MAX ==> rgba_len((width + 1) as u32, height) == rgba_len(width, height) + 4
            * height,
        rgba_len(width, 0) == 0,
        rgba_len(0, height) == 0,
{
    assert(width * (height + 1) == width * height + width) by (nonlinear_arith);
    assert((width + 1) * height == width * height + height) by (nonlinear_arith);
    assert(width * 0 == 0 && 0 * height == 0) by (nonlinear_arith);
}

/// An encoding attempt keeps its file and its message.
pub proof fn attempts_keep_file_and_message(png: Seq<u8>, message: Seq<char>)
    ensures
        png_outcome(Some(Ok(png))) == Ok::<Seq<u8>, Seq<char>>(png),
        png_outcome(Some(Err(message))) is Err,
        png_outcome(Some(Err(message)))->Err_0.skip("png encode failed: "@.len() as int) == message,
        png_outcome(Some(Err(message)))->Err_0.take("png encode failed: "@.len() as int)
            == "png encode failed: "@,
        png_outcome(None) == Err::<Seq<u8>, Seq<char>>("clipboard image buffer size mismatch"@),
{
    let head = "png encode failed: "@;
    assert((head + message).skip(head.len() as int) =~= message);
    assert((head + message).take(head.len() as int) =~= head);
}

/// The views of results, errors and fields keep every text and every byte.
pub proof fn upload_views_keep_their_contents(
    text: String,
    bytes: Vec<u8>,
    error: UploadError,
    field: FormField,
    fields: Seq<FormField>,
    i: int,
)
    ensures
        UploadError::Unauthorized@ == UploadErrorView::Unauthorized,
        UploadError::Failed(text)@ == UploadErrorView::Failed(text@),
        UploadErrorView::Failed(text@).message() == text@,
        UploadErrorView::Unauthorized.message() == "Your session has expired."@,
        upload_outcome(Ok(text)) == Ok::<Seq<char>, UploadErrorView>(text@),
        upload_outcome(Err(error)) == Err::<Seq<char>, UploadErrorView>(error@),
        bytes_outcome(Ok(bytes)) == Ok::<Seq<u8>, Seq<char>>(bytes@),
        bytes_outcome(Err(text)) == Err::<Seq<u8>, Seq<char>>(text@),
        field@.name == field.name@,
        field@.value == field.value@,
        fields_view(fields).len() == fields.len(),
        0 <= i < fields.len() ==> fields_view(fields)[i] == fields[i]@,
{
}

/// A message of any text is shown as it is.
pub proof fn failure_messages_are_shown_as_they_are(m: Seq<char>)
    ensures
        UploadErrorView::Failed(m).message() == m,
{
}

/// A number of seconds goes into one field, under its name, and reads back as
/// itself; without a number there is no field.
pub proof fn seconds_read_back_from_their_field(name: Seq<char>, secs: u64)
    ensures
        secs_field(name, None).len() == 0,
        secs_field(name, Some(secs)).len() == 1,
        secs_field(name, Some(secs))[0].name == name,
        crate::text::number(secs_field(name, Some(secs))[0].value) == secs,
        secs_field(name, Some(secs))[0].value == crate::text::decimal(secs as nat),
{
    crate::text::decimal_reads_back(secs as nat);
}

/// What a form says, field by field: a keyed one says how long the image lives
/// if the options do, and where they ask for a private image that it is private
/// and how long the signed link lives. It says nothing else, and nothing twice.
pub proof fn forms_say_what_the_options_say(keyed: bool, opts: KeyedOptions, f: FieldView)
    ensures
        form_fields(keyed, opts).contains(f) <==> keyed && {
            ||| f.name == "expires_in"@ && (opts.expires_in matches Some(n) && f.value
                == crate::text::decimal(n as nat))
            ||| opts.private && f.name == "visibility"@ && f.value == "private"@
            ||| opts.private && f.name == "sign_expires_in"@ && (opts.sign_expires_in matches Some(
                n,
            ) && f.value == crate::text::decimal(n as nat))
        },
        form_fields(keyed, opts).len() == if !keyed {
            0int
        } else {
            (if opts.expires_in is Some {
                1int
            } else {
                0
            }) + (if opts.private {
                1int
            } else {
                0
            }) + (if opts.private && opts.sign_expires_in is Some {
                1int
            } else {
                0
            })
        },
{
    let form = form_fields(keyed, opts);
    if keyed {
        let a = secs_field("expires_in"@, opts.expires_in);
        let b = seq![FieldView { name: "visibility"@, value: "private"@ }];
        let c = secs_field("sign_expires_in"@, opts.sign_expires_in);
        if opts.private {
            assert(form == a + b + c);
            if opts.expires_in is Some {
                assert(form[0] == a[0]);
            }
            assert(form[a.len() as int] == b[0]);
            if opts.sign_expires_in is Some {
                assert(form[a.len() as int + 1] == c[0]);
            }
        } else {
            assert(form == a);
            if opts.expires_in is Some {
                assert(form[0] == a[0]);
            }
        }
    }
}

/// The statuses from 200 to 299 are successes, all others are failures. One
/// without a message of its own shows its number, so two of them are told apart.
pub proof fn failures_show_their_status(status: u16, other: u16)
    ensures
        status_failure(status) is None <==> status / 100 == 2,
        is_success(status as int) <==> status / 100 == 2,
        ({
            let plain = |s: u16|
                s / 100 != 2 && s != 401 && s != 402 && s != 403 && s != 413 && s != 429;
            let head = "Upload failed ("@;
            plain(status) ==> {
                let m = status_failure(status)->0.message();
                let n = crate::text::decimal(status as nat);
                &&& status_failure(status)->0 is Failed
                &&& m.take(head.len() as int) == head
                &&& m.skip(head.len() as int) == n + ")."@
                &&& plain(other) && other != status ==> status_failure(other)->0.message() != m
            }
        }),
        status == 402 || status == 413 || status == 429 ==> status_failure(status)->0 is Failed,
{
    let head = "Upload failed ("@;
    let n = crate::text::decimal(status as nat);
    let k = crate::text::decimal(other as nat);
    let tail = ")."@;
    assert((head + n + tail).take(head.len() as int) =~= head);
    assert((head + n + tail).skip(head.len() as int) =~= n + tail);
    if head + n + tail == head + k + tail {
        assert((head + n + tail).len() == (head + k + tail).len());
        assert(n =~= (head + n + tail).subrange(head.len() as int, (head.len() + n.len()) as int));
        assert(k =~= (head + k + tail).subrange(head.len() as int, (head.len() + k.len()) as int));
        crate::text::decimal_is_injective(status as nat, other as nat);
    }
}

/// Three statuses have a message of their own.
pub proof fn known_failures_are_explained()
    ensures
        status_failure(402) == Some(
            UploadErrorView::Failed(
                "Private image limit reached — upgrade for unlimited private images."@,
            ),
        ),
        status_failure(413) == Some(UploadErrorView::Failed("Image is too large."@)),
        status_failure(429) == Some(
            UploadErrorView::Failed("Rate limit reached — try again shortly."@),
        ),
{
}

/// How the image itself travels.
pub proof fn the_image_travels_as_a_png_file()
    ensures
        FILE_FIELD@ == "file"@,
        FILE_NAME@ == "clipboard.png"@,
        FILE_MIME@ == "image/png"@,
        REQUEST_TIMEOUT_SECS == 30,
{
}

/// An upload is posted to the image address of the API, with the key as it is, if
/// there is one.
pub proof fn requests_bear_the_given_key(
    api_base: &str,
    api_key: Option<&str>,
    opts: &KeyedOptions,
    request: UploadRequest,
)
    requires
        call_ensures(upload_request, (api_base, api_key, opts), request),
    ensures
        request.url@ == api_base@ + "/v1/images"@,
        request.bearer is Some <==> api_key is Some,
        api_key is Some ==> request.bearer->0@ == api_key->0@,
        api_key is None ==> request.fields@.len() == 0,
        api_key is Some && opts.private ==> exists|i: int|
            0 <= i < request.fields@.len() && (#[trigger] request.fields@[i]).name@
                == "visibility"@ && request.fields@[i].value@ == "private"@,
{
    let fields = fields_view(request.fields@);
    assert(fields.len() == request.fields@.len());
    if api_key is Some && opts.private {
        let at = secs_field("expires_in"@, opts.expires_in).len() as int;
        assert(fields[at] == FieldView { name: "visibility"@, value: "private"@ });
        assert(fields[at] == request.fields@[at]@);
    }
}

/// A reply with a status from 200 to 299 is a success and any other is not; a
/// refused key is told from any other failure.
pub proof fn uploads_are_judged_by_their_status(
    status: u16,
    r: Result<(), UploadError>,
)
    requires
        call_ensures(check_upload_status, (status,), r),
    ensures
        r is Ok <==> 200 <= status <= 299,
        r is Err ==> (r->Err_0 is Unauthorized <==> status == 401 || status == 403),
{
}

/// The URL in a reply is handed on as it is; a reply that cannot be read is
/// reported with the reason.
pub proof fn hosted_urls_are_handed_on(url: Result<String, String>, r: Result<String, UploadError>)
    requires
        call_ensures(hosted_url, (url,), r),
    ensures
        r is Ok <==> url is Ok,
        url is Ok ==> r->Ok_0@ == url->Ok_0@,
        url is Err ==> r->Err_0 is Failed && r->Err_0->Failed_0@ == "bad response: "@
            + url->Err_0@,
{
}

/// Pixels come out as a PNG file exactly if there are some and the buffer holds
/// all of them, and the file is the encoding of that width, that height and those
/// bytes.
pub proof fn pixels_come_out_as_their_file(
    width: u32,
    height: u32,
    rgba: Vec<u8>,
    r: Result<Vec<u8>, String>,
    fits: bool,
)
    requires
        call_ensures(encode_png, (width, height, rgba), r),
        call_ensures(no_larger_than_image, (width, height, rgba@.len() as usize), fits),
        rgba@.len() <= usize::MAX,
    ensures
        r is Ok <==> width > 0 && height > 0 && rgba@.len() == 4 * (width * height),
        r is Ok ==> png_encoding(width, height, rgba@) == Ok::<Seq<u8>, Seq<char>>(r->Ok_0@),
        fits <==> rgba@.len() <= 4 * (width * height),
{
}

} // verus!
