//! The rules of the measurement endpoint: which upload field goes where, which request
//! errors come first and how they are answered, the demo-mode seed, and configuration.

use vstd::prelude::*;
use vstd::string::*;

verus! {

/// Port the service listens on when none is configured.
pub const DEFAULT_PORT: u16 = 9090;

/// Whether two strings hold the same characters.
fn same_text(a: &str, b: &str) -> (same: bool)
    ensures
        same == (a@ == b@),
{
    let n = a.unicode_len();
    if n != b.unicode_len() {
        return false;
    }
    let mut i: usize = 0;
    while i < n
        invariant
            n == a@.len(),
            n == b@.len(),
            i <= n,
            forall|k: int| 0 <= k < i ==> a@[k] == b@[k],
        decreases n - i,
    {
        if a.get_char(i) != b.get_char(i) {
            return false;
        }
        i = i + 1;
    }
    assert(a@ =~= b@);
    true
}

/// What the endpoint does with a multipart field, chosen by the field's name.
#[derive(Debug, Clone, Copy, PartialEq, Eq, Structural)]
pub enum UploadField {
    /// `front_photo`: the bytes of the front photo.
    FrontPhoto,
    /// `side_photo`: the bytes of the side photo.
    SidePhoto,
    /// `height_cm`: the text of the user's height in centimetres.
    HeightCm,
    /// `gender`: the text of the chart's gender.
    Gender,
    /// Any other name: the field is read and dropped.
    Other,
}

/// The kind of a multipart field by its name (an unnamed field has the name `""`).
pub open spec fn field_kind(name: Seq<char>) -> UploadField {
    if name == "front_photo"@ {
        UploadField::FrontPhoto
    } else if name == "side_photo"@ {
        UploadField::SidePhoto
    } else if name == "height_cm"@ {
        UploadField::HeightCm
    } else if name == "gender"@ {
        UploadField::Gender
    } else {
        UploadField::Other
    }
}

pub fn upload_field(name: &str) -> (kind: UploadField)
    ensures
        kind == field_kind(name@),
{
    if same_text(name, "front_photo") {
        UploadField::FrontPhoto
    } else if same_text(name, "side_photo") {
        UploadField::SidePhoto
    } else if same_text(name, "height_cm") {
        UploadField::HeightCm
    } else if same_text(name, "gender") {
        UploadField::Gender
    } else {
        UploadField::Other
    }
}

impl UploadField {
    /// Whether a failed read of the field's content fails the request: it does for the
    /// photos and the height; a gender that cannot be read falls back to `women`, and the
    /// content of any other field is dropped either way.
    pub open spec fn read_failure_fatal(self) -> bool {
        match self {
            UploadField::FrontPhoto => true,
            UploadField::SidePhoto => true,
            UploadField::HeightCm => true,
            UploadField::Gender => false,
            UploadField::Other => false,
        }
    }

    pub fn read_failure_is_fatal(self) -> (fatal: bool)
        ensures
            fatal == self.read_failure_fatal(),
    {
        match self {
            UploadField::FrontPhoto => true,
            UploadField::SidePhoto => true,
            UploadField::HeightCm => true,
            UploadField::Gender => false,
            UploadField::Other => false,
        }
    }
}

/// The gender assumed when the request names none, or names one that cannot be read.
pub fn default_gender() -> (gender: &'static str)
    ensures
        gender@ == "women"@,
{
    "women"
}

/// Why a measurement request failed.
#[derive(Debug, PartialEq, Eq)]
pub enum RequestError {
    /// The multipart body could not be read; holds the reader's message.
    Multipart(String),
    /// No `front_photo` field.
    MissingFrontPhoto,
    /// No `side_photo` field.
    MissingSidePhoto,
    /// No `height_cm` field that parses to a height from 130 to 220 cm.
    HeightOutOfRange,
    /// The measuring task stopped before it finished; holds its message.
    TaskFailed(String),
    /// Measuring the photos failed; holds the reason.
    MeasurementFailed(String),
}

impl RequestError {
    /// The HTTP status code of the answer.
    pub open spec fn status_spec(self) -> u16 {
        match self {
            RequestError::Multipart(_) => 400,
            RequestError::MissingFrontPhoto => 400,
            RequestError::MissingSidePhoto => 400,
            RequestError::HeightOutOfRange => 400,
            RequestError::TaskFailed(_) => 500,
            RequestError::MeasurementFailed(_) => 422,
        }
    }

    /// The text of the answer's `error` field.
    pub open spec fn message_spec(self) -> Seq<char> {
        match self {
            RequestError::Multipart(m) => m@,
            RequestError::MissingFrontPhoto => "front_photo is required"@,
            RequestError::MissingSidePhoto => "side_photo is required"@,
            RequestError::HeightOutOfRange => "height_cm must be 130–220"@,
            RequestError::TaskFailed(m) => m@,
            RequestError::MeasurementFailed(m) => m@,
        }
    }

    /// The HTTP status code of the answer: 400 for a bad request, 422 when the photos
    /// cannot be measured, 500 when the measuring task broke down.
    pub fn status(&self) -> (code: u16)
        ensures
            code == self.status_spec(),
    {
        match self {
            RequestError::Multipart(_) => 400,
            RequestError::MissingFrontPhoto => 400,
            RequestError::MissingSidePhoto => 400,
            RequestError::HeightOutOfRange => 400,
            RequestError::TaskFailed(_) => 500,
            RequestError::MeasurementFailed(_) => 422,
        }
    }

    /// The text of the answer's `error` field.
    pub fn message(&self) -> (text: &str)
        ensures
            text@ == self.message_spec(),
    {
        match self {
            RequestError::Multipart(m) => m.as_str(),
            RequestError::MissingFrontPhoto => "front_photo is required",
            RequestError::MissingSidePhoto => "side_photo is required",
            RequestError::HeightOutOfRange => "height_cm must be 130–220",
            RequestError::TaskFailed(m) => m.as_str(),
            RequestError::MeasurementFailed(m) => m.as_str(),
        }
    }
}

/// Requests that are malformed or lack a field are answered 400; photos that cannot be
/// measured 422; a measuring task that broke down 500.
pub proof fn lemma_status_codes(err: RequestError)
    ensures
        err is Multipart || err is MissingFrontPhoto || err is MissingSidePhoto
            || err is HeightOutOfRange ==> err.status_spec() == 400,
        err is MeasurementFailed ==> err.status_spec() == 422,
        err is TaskFailed ==> err.status_spec() == 500,
{
}

/// The multipart fields are told apart by their exact names: `front_photo`, `side_photo`,
/// `height_cm` and `gender`; every other name, the empty one included, is some other field.
pub proof fn lemma_field_names(name: Seq<char>)
    ensures
        field_kind(name) == UploadField::FrontPhoto <==> name == "front_photo"@,
        field_kind(name) == UploadField::SidePhoto <==> name == "side_photo"@,
        field_kind(name) == UploadField::HeightCm <==> name == "height_cm"@,
        field_kind(name) == UploadField::Gender <==> name == "gender"@,
        field_kind(name) == UploadField::Other <==> name != "front_photo"@ && name != "side_photo"@
            && name != "height_cm"@ && name != "gender"@,
{
    reveal_strlit("front_photo");
    reveal_strlit("side_photo");
    reveal_strlit("height_cm");
    reveal_strlit("gender");
    assert("front_photo"@.len() == 11);
    assert("side_photo"@.len() == 10);
    assert("height_cm"@.len() == 9);
    assert("gender"@.len() == 6);
    assert("front_photo"@ != "side_photo"@);
    assert("front_photo"@ != "height_cm"@);
    assert("front_photo"@ != "gender"@);
    assert("side_photo"@ != "height_cm"@);
    assert("side_photo"@ != "gender"@);
    assert("height_cm"@ != "gender"@);
}

/// Checks that a request brought both photos and a usable height, in that order: the
/// front photo first, then the side photo, then the height. `height` is the height when
/// the field was present, parsed and within 130 to 220 cm.
pub fn check_upload<H>(front: Option<Vec<u8>>, side: Option<Vec<u8>>, height: Option<H>) -> (res:
    Result<(Vec<u8>, Vec<u8>, H), RequestError>)
    ensures
        front is None ==> res == Err::<(Vec<u8>, Vec<u8>, H), RequestError>(
            RequestError::MissingFrontPhoto,
        ),
        front is Some && side is None ==> res == Err::<(Vec<u8>, Vec<u8>, H), RequestError>(
            RequestError::MissingSidePhoto,
        ),
        front is Some && side is Some && height is None ==> res == Err::<
            (Vec<u8>, Vec<u8>, H),
            RequestError,
        >(RequestError::HeightOutOfRange),
        front is Some && side is Some && height is Some ==> res == Ok::<
            (Vec<u8>, Vec<u8>, H),
            RequestError,
        >((front->0, side->0, height->0)),
{
    let front = match front {
        Some(f) => f,
        None => return Err(RequestError::MissingFrontPhoto),
    };
    let side = match side {
        Some(s) => s,
        None => return Err(RequestError::MissingSidePhoto),
    };
    match height {
        Some(h) => Ok((front, side, h)),
        None => Err(RequestError::HeightOutOfRange),
    }
}

/// The sum of the bytes.
pub open spec fn byte_total(bytes: Seq<u8>) -> nat
    decreases bytes.len(),
{
    if bytes.len() == 0 {
        0
    } else {
        byte_total(bytes.drop_last()) + bytes.last() as nat
    }
}

/// The demo-mode seed of a photo: the sum of its bytes, wrapped to 64 bits.
pub open spec fn photo_seed(bytes: Seq<u8>) -> u64 {
    (byte_total(bytes) % 0x1_0000_0000_0000_0000) as u64
}

/// The demo-mode seed of a photo: the wrapping sum of its bytes.
pub fn demo_seed(photo: &Vec<u8>) -> (seed: u64)
    ensures
        seed == photo_seed(photo@),
{
    let mut acc: u64 = 0;
    let mut i: usize = 0;
    while i < photo.len()
        invariant
            i <= photo@.len(),
            acc == photo_seed(photo@.take(i as int)),
        decreases photo@.len() - i,
    {
        let b = photo[i];
        proof {
            let t = photo@.take(i as int);
            assert(photo@.take(i + 1).drop_last() =~= t);
            let m: int = 0x1_0000_0000_0000_0000;
            let total = byte_total(t) as int;
            assert((total + b) % m == ((total % m) + b) % m) by {
                vstd::arithmetic::div_mod::lemma_add_mod_noop(total, b as int, m);
                vstd::arithmetic::div_mod::lemma_mod_twice(b as int, m);
            }
        }
        acc = acc.wrapping_add(b as u64);
        i = i + 1;
    }
    assert(photo@.take(photo@.len() as int) =~= photo@);
    acc
}

proof fn lemma_byte_total_concat(a: Seq<u8>, b: Seq<u8>)
    ensures
        byte_total(a + b) == byte_total(a) + byte_total(b),
    decreases b.len(),
{
    if b.len() == 0 {
        assert(a + b =~= a);
    } else {
        lemma_byte_total_concat(a, b.drop_last());
        assert((a + b).drop_last() =~= a + b.drop_last());
    }
}

/// The demo seed of two pieces of data joined together is the wrapping sum of their
/// seeds, so the seed does not depend on the order of the pieces.
pub proof fn lemma_photo_seed_concat(a: Seq<u8>, b: Seq<u8>)
    ensures
        photo_seed(a + b) == (photo_seed(a) + photo_seed(b)) % 0x1_0000_0000_0000_0000,
        photo_seed(a + b) == photo_seed(b + a),
{
    lemma_byte_total_concat(a, b);
    lemma_byte_total_concat(b, a);
    let m: int = 0x1_0000_0000_0000_0000;
    vstd::arithmetic::div_mod::lemma_add_mod_noop(byte_total(a) as int, byte_total(b) as int, m);
}

/// The demo seed is the plain wrapping sum of the bytes: an empty photo has seed 0, a
/// one-byte photo has that byte as its seed, and one more byte adds its value modulo 2^64.
pub proof fn lemma_photo_seed_steps(bytes: Seq<u8>, b: u8)
    ensures
        photo_seed(Seq::<u8>::empty()) == 0,
        photo_seed(seq![b]) == b,
        photo_seed(bytes.push(b)) == (photo_seed(bytes) + b) % 0x1_0000_0000_0000_0000,
{
    assert(seq![b].drop_last() =~= Seq::<u8>::empty());
    assert(bytes.push(b).drop_last() =~= bytes);
    let m: int = 0x1_0000_0000_0000_0000;
    vstd::arithmetic::div_mod::lemma_add_mod_noop(byte_total(bytes) as int, b as int, m);
    vstd::arithmetic::div_mod::lemma_small_mod(b as nat, m as nat);
}

/// The demo-mode variation, in whole centimetres, drawn from a seed: from -6 to 5.
pub fn demo_variance_cm(seed: u64) -> (v: i8)
    ensures
        v == (seed % 12) as int - 6,
        -6 <= v <= 5,
{
    (seed % 12) as i8 - 6
}

/// The service runs in demo mode, answering with made-up measurements, unless both model
/// files are present.
pub fn demo_mode(pose_model_present: bool, segmentation_model_present: bool) -> (demo: bool)
    ensures
        demo == !(pose_model_present && segmentation_model_present),
{
    !(pose_model_present && segmentation_model_present)
}

/// The paths of the pose model and of the segmentation model in the model directory.
pub fn model_paths(dir: &str) -> (paths: (String, String))
    ensures
        paths.0@ == dir@ + "/blazepose_full.onnx"@,
        paths.1@ == dir@ + "/u2net.onnx"@,
{
    let mut pose = String::from_str(dir);
    pose.append("/blazepose_full.onnx");
    let mut segmentation = String::from_str(dir);
    segmentation.append("/u2net.onnx");
    (pose, segmentation)
}

/// The value of a string of decimal digits.
pub open spec fn decimal_value(digits: Seq<char>) -> nat
    decreases digits.len(),
{
    if digits.len() == 0 {
        0
    } else {
        (decimal_value(digits.drop_last()) * 10 + (digits.last() as int - '0' as int)) as nat
    }
}

/// Whether the string is one or more ASCII decimal digits.
pub open spec fn is_decimal(digits: Seq<char>) -> bool {
    digits.len() > 0 && forall|i: int| 0 <= i < digits.len() ==> '0' <= #[trigger] digits[i] <= '9'
}

/// What `str::parse::<u16>` returns: the value of an optional `+` followed by decimal
/// digits, when it is at most 65535, and nothing for any other text.
pub open spec fn parsed_u16(text: Seq<char>) -> Option<u16> {
    let digits = if text.len() > 0 && text[0] == '+' {
        text.drop_first()
    } else {
        text
    };
    if is_decimal(digits) && decimal_value(digits) <= u16::MAX {
        Some(decimal_value(digits) as u16)
    } else {
        None
    }
}

proof fn lemma_decimal_prefix(digits: Seq<char>, k: int)
    requires
        is_decimal(digits),
        0 < k <= digits.len(),
    ensures
        decimal_value(digits.take(k)) <= decimal_value(digits),
    decreases digits.len(),
{
    if k < digits.len() {
        let rest = digits.drop_last();
        assert(is_decimal(rest));
        lemma_decimal_prefix(rest, k);
        assert(rest.take(k) =~= digits.take(k));
    } else {
        assert(digits.take(k) =~= digits);
    }
}

/// Parses a port number as `str::parse::<u16>` does: an optional `+`, then one or more
/// ASCII digits, of value at most 65535.
fn parse_u16(text: &str) -> (n: Option<u16>)
    ensures
        n == parsed_u16(text@),
{
    let len = text.unicode_len();
    let mut start: usize = 0;
    if len > 0 && text.get_char(0) == '+' {
        start = 1;
    }
    let ghost digits = text@.subrange(start as int, len as int);
    assert(digits =~= if text@.len() > 0 && text@[0] == '+' {
        text@.drop_first()
    } else {
        text@
    });
    if start == len {
        return None;
    }
    let mut value: u32 = 0;
    let mut i: usize = start;
    while i < len
        invariant
            len == text@.len(),
            start < len,
            start <= i <= len,
            digits == text@.subrange(start as int, len as int),
            digits == (if text@.len() > 0 && text@[0] == '+' {
                text@.drop_first()
            } else {
                text@
            }),
            forall|k: int| start <= k < i ==> '0' <= #[trigger] text@[k] <= '9',
            value == decimal_value(text@.subrange(start as int, i as int)),
            value <= 65535,
        decreases len - i,
    {
        let c = text.get_char(i);
        if (c as u32) < 48 || (c as u32) > 57 {
            assert(digits[i - start] == c);
            assert(!('0' <= c && c <= '9'));
            assert(!is_decimal(digits));
            return None;
        }
        assert('0' <= c && c <= '9');
        assert(text@.subrange(start as int, i + 1).drop_last() =~= text@.subrange(
            start as int,
            i as int,
        ));
        value = value * 10 + ((c as u32) - 48);
        if value > 65535 {
            proof {
                if is_decimal(digits) {
                    lemma_decimal_prefix(digits, i + 1 - start);
                    assert(digits.take(i + 1 - start) =~= text@.subrange(start as int, i + 1));
                    assert(decimal_value(digits) > u16::MAX);
                }
            }
            return None;
        }
        i = i + 1;
    }
    assert(text@.subrange(start as int, i as int) =~= digits);
    assert forall|k: int| 0 <= k < digits.len() implies '0' <= #[trigger] digits[k] <= '9' by {
        assert(digits[k] == text@[start + k]);
    }
    Some(value as u16)
}

/// How a port number is read: no text, or a lone `+`, is no number; one digit is its own
/// value; a `+` before the digits changes nothing; one more digit multiplies the value by ten
/// and adds the digit while the value stays at most 65535, and gives no number past it; a
/// character that is not a digit gives no number.
pub proof fn lemma_parsed_u16_steps(digits: Seq<char>, c: char)
    requires
        digits.len() > 0,
        forall|i: int| 0 <= i < digits.len() ==> '0' <= #[trigger] digits[i] <= '9',
    ensures
        parsed_u16(Seq::<char>::empty()) is None,
        parsed_u16(seq!['+']) is None,
        '0' <= c <= '9' ==> parsed_u16(seq![c]) == Some((c as int - 48) as u16),
        parsed_u16(seq!['+'] + digits) == parsed_u16(digits),
        !('0' <= c <= '9') ==> parsed_u16(digits.push(c)) is None,
        '0' <= c <= '9' ==> match parsed_u16(digits) {
            Some(v) => parsed_u16(digits.push(c)) == if v * 10 + (c as int - 48) <= 65535 {
                Some((v * 10 + (c as int - 48)) as u16)
            } else {
                None
            },
            None => parsed_u16(digits.push(c)) is None,
        },
{
    assert(seq![c].drop_last() =~= Seq::<char>::empty());
    assert((seq!['+'] + digits).drop_first() =~= digits);
    assert(digits.push(c).drop_last() =~= digits);
    assert(seq!['+'].drop_first() =~= Seq::<char>::empty());
    assert('0' as int == 48);
    if !('0' <= c <= '9') {
        assert(!is_decimal(digits.push(c))) by {
            assert(digits.push(c)[digits.len() as int] == c);
        }
        assert(digits.push(c)[0] == digits[0]);
    }
    if '0' <= c <= '9' {
        assert(is_decimal(digits.push(c))) by {
            assert forall|i: int| 0 <= i < digits.push(c).len() implies '0' <= #[trigger] digits.push(
                c,
            )[i] <= '9' by {
                if i < digits.len() {
                    assert(digits.push(c)[i] == digits[i]);
                }
            }
        }
        assert(digits.push(c)[0] == digits[0]);
        assert(is_decimal(digits));
    }
}

/// The port to listen on: the configured value when it parses as a port number, else
/// `DEFAULT_PORT`.
pub fn port_or_default(configured: Option<&str>) -> (port: u16)
    ensures
        port == match configured {
            Some(text) => match parsed_u16(text@) {
                Some(p) => p,
                None => DEFAULT_PORT,
            },
            None => DEFAULT_PORT,
        },
{
    match configured {
        Some(text) => match parse_u16(text) {
            Some(p) => p,
            None => DEFAULT_PORT,
        },
        None => DEFAULT_PORT,
    }
}

} // verus!
