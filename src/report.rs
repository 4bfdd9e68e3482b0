//! What one batch run decides for each directory entry, and the report that
//! collects the failures.
use vstd::prelude::*;
use vstd::string::StringSliceAdditionalSpecFns;

verus! {

/// A failure met while processing one entry, or the whole batch.
#[derive(Clone, Debug, PartialEq, Eq)]
pub enum AppError {
    /// The directory could not be read.
    Io(String),
    /// The entry is not an image of a known format, or could not be decoded.
    Image { filepath: String, error: String },
    /// The image is too small for the margins to leave any pixel.
    Geometry { filepath: String, width: u32, height: u32 },
    /// Text recognition failed on the image.
    Ocr { filepath: String, error: String },
    /// The recognition engine has not finished loading.
    EngineNotReady,
    /// Any other failure, such as an unreadable directory entry.
    Custom(String),
}

/// What became of one directory entry.
#[derive(Clone, Debug, PartialEq, Eq)]
pub enum Outcome {
    /// Left out by name: it is neither a success nor a failure.
    Skipped,
    /// Processed.
    Done,
    /// Failed; the failure goes into the report.
    Failed(AppError),
}

/// What to do with a directory entry, decided from its name alone.
#[derive(Clone, Debug, PartialEq, Eq)]
pub enum Screen {
    /// A metadata file of the file system: ignore it.
    Skip,
    /// Not an image: record this failure without reading the file.
    Reject(AppError),
    /// Decode and transform it.
    Process,
}

/// Bytes of the metadata file name that is never processed, in lower case.
pub open spec fn sentinel_name() -> Seq<u8> {
    seq![46u8, 100u8, 115u8, 95u8, 115u8, 116u8, 111u8, 114u8, 101u8]
}

/// ASCII lower case of one byte.
pub open spec fn ascii_lower(b: u8) -> u8 {
    if 65 <= b <= 90 {
        (b + 32) as u8
    } else {
        b
    }
}

/// Whether `name` equals the sentinel name, ignoring ASCII case.
pub open spec fn is_sentinel_spec(name: Seq<u8>) -> bool {
    name.len() == sentinel_name().len() && forall|i: int|
        0 <= i < name.len() ==> #[trigger] ascii_lower(name[i]) == sentinel_name()[i]
}

/// Whether `name` is the file system's metadata file, in any ASCII case.
pub fn is_sentinel(name: &str) -> (r: bool)
    ensures
        r == is_sentinel_spec(name.spec_bytes()),
{
    let bytes = name.as_bytes();
    let expected: Vec<u8> = vec![46u8, 100u8, 115u8, 95u8, 115u8, 116u8, 111u8, 114u8, 101u8];
    assert(expected@ == sentinel_name());
    if bytes.len() != expected.len() {
        return false;
    }
    let mut i: usize = 0;
    while i < bytes.len()
        invariant
            bytes@ == name.spec_bytes(),
            expected@ == sentinel_name(),
            bytes@.len() == expected@.len(),
            i <= bytes@.len(),
            forall|j: int| 0 <= j < i ==> #[trigger] ascii_lower(bytes@[j]) == expected@[j],
        decreases bytes@.len() - i,
    {
        let b = bytes[i];
        let lower: u8 = if 65 <= b && b <= 90 { b + 32 } else { b };
        if lower != expected[i] {
            assert(ascii_lower(bytes@[i as int]) != sentinel_name()[i as int]);
            return false;
        }
        i = i + 1;
    }
    true
}

/// Whether the image crate recognises the extension of `name` as an image
/// format.
pub uninterp spec fn has_image_extension(name: Seq<char>) -> bool;

/// Relies on image::ImageFormat::from_path: succeeds exactly when the name's
/// extension names a format that the crate knows; the error becomes its message.
#[verifier::external_body]
fn format_check(name: &str) -> (r: Result<(), String>)
    ensures
        r is Ok == has_image_extension(name@),
{
    match image::ImageFormat::from_path(name) {
        Ok(_) => Ok(()),
        Err(e) => Err(e.to_string()),
    }
}

/// Decides what to do with the entry called `name` at `filepath`: skip the
/// metadata file, reject a name whose format is unknown, process the rest.
pub fn screen_entry(name: &str, filepath: &String) -> (r: Screen)
    ensures
        is_sentinel_spec(name.spec_bytes()) ==> r == Screen::Skip,
        !is_sentinel_spec(name.spec_bytes()) && has_image_extension(name@) ==> r
            == Screen::Process,
        !is_sentinel_spec(name.spec_bytes()) && !has_image_extension(name@) ==> (r matches Screen::Reject(
            AppError::Image { filepath: p, error: _ },
        ) && p@ == filepath@),
{
    if is_sentinel(name) {
        return Screen::Skip;
    }
    match format_check(name) {
        Ok(()) => Screen::Process,
        Err(msg) => Screen::Reject(AppError::Image { filepath: filepath.clone(), error: msg }),
    }
}

/// The outcome of an entry that was processed: done when every step
/// succeeded, else failed with the first step's error.
pub fn finish_entry(result: Result<(), AppError>) -> (o: Outcome)
    ensures
        match result {
            Ok(()) => o == Outcome::Done,
            Err(e) => o == Outcome::Failed(e),
        },
{
    match result {
        Ok(()) => Outcome::Done,
        Err(e) => Outcome::Failed(e),
    }
}

/// The outcome of an entry that screening settled without processing it: a
/// skip, or a rejection.
pub fn settled_entry(screen: Screen) -> (o: Option<Outcome>)
    ensures
        match screen {
            Screen::Skip => o == Some(Outcome::Skipped),
            Screen::Reject(e) => o == Some(Outcome::Failed(e)),
            Screen::Process => o is None,
        },
{
    match screen {
        Screen::Skip => Some(Outcome::Skipped),
        Screen::Reject(e) => Some(Outcome::Failed(e)),
        Screen::Process => None,
    }
}

/// The failures among `s`, in order.
pub open spec fn failures_spec(s: Seq<Outcome>) -> Seq<AppError>
    decreases s.len(),
{
    if s.len() == 0 {
        Seq::empty()
    } else {
        let rest = failures_spec(s.drop_first());
        match s[0] {
            Outcome::Failed(e) => seq![e] + rest,
            _ => rest,
        }
    }
}

/// How many outcomes of `s` are `Done`.
pub open spec fn done_count(s: Seq<Outcome>) -> nat
    decreases s.len(),
{
    if s.len() == 0 {
        0
    } else {
        done_count(s.drop_first()) + if s[0] is Done { 1nat } else { 0nat }
    }
}

/// How many outcomes of `s` are `Failed`.
pub open spec fn failed_count(s: Seq<Outcome>) -> nat
    decreases s.len(),
{
    if s.len() == 0 {
        0
    } else {
        failed_count(s.drop_first()) + if s[0] is Failed { 1nat } else { 0nat }
    }
}

/// How many outcomes of `s` are `Skipped`.
pub open spec fn skipped_count(s: Seq<Outcome>) -> nat
    decreases s.len(),
{
    if s.len() == 0 {
        0
    } else {
        skipped_count(s.drop_first()) + if s[0] is Skipped { 1nat } else { 0nat }
    }
}

/// The batch report: every failure among the outcomes, in their order.
pub fn failures(outcomes: Vec<Outcome>) -> (r: Vec<AppError>)
    ensures
        r@ == failures_spec(outcomes@),
{
    let ghost all = outcomes@;
    let mut rest = outcomes;
    let mut r: Vec<AppError> = Vec::new();
    while rest.len() > 0
        invariant
            r@ + failures_spec(rest@) == failures_spec(all),
        decreases rest@.len(),
    {
        let ghost before = rest@;
        let o = rest.remove(0);
        assert(rest@ == before.drop_first());
        match o {
            Outcome::Failed(e) => {
                assert(r@.push(e) + failures_spec(rest@) =~= r@ + (seq![e] + failures_spec(rest@)));
                r.push(e);
            },
            _ => {},
        }
    }
    assert(r@ + failures_spec(rest@) =~= r@);
    r
}

/// How many entries were processed.
pub fn success_count(outcomes: &Vec<Outcome>) -> (r: usize)
    ensures
        r == done_count(outcomes@),
{
    let len: usize = outcomes.len();
    let mut i: usize = len;
    let mut n: usize = 0;
    while i > 0
        invariant
            len == outcomes@.len(),
            i <= len,
            n == done_count(outcomes@.subrange(i as int, outcomes@.len() as int)),
            n <= len - i,
        decreases i,
    {
        i = i - 1;
        let ghost tail = outcomes@.subrange(i as int, outcomes@.len() as int);
        assert(tail.drop_first() =~= outcomes@.subrange(i + 1, outcomes@.len() as int));
        match &outcomes[i] {
            Outcome::Done => {
                n = n + 1;
            },
            _ => {},
        }
    }
    assert(outcomes@.subrange(0, outcomes@.len() as int) =~= outcomes@);
    n
}

proof fn lemma_counts(s: Seq<Outcome>)
    ensures
        failures_spec(s).len() == failed_count(s),
        done_count(s) + failed_count(s) + skipped_count(s) == s.len(),
    decreases s.len(),
{
    if s.len() > 0 {
        lemma_counts(s.drop_first());
    }
}

proof fn lemma_append_skipped(s: Seq<Outcome>)
    ensures
        failures_spec(s.push(Outcome::Skipped)) == failures_spec(s),
        done_count(s.push(Outcome::Skipped)) == done_count(s),
    decreases s.len(),
{
    let t = s.push(Outcome::Skipped);
    assert(t[0] == if s.len() > 0 { s[0] } else { Outcome::Skipped });
    if s.len() > 0 {
        assert(t.drop_first() =~= s.drop_first().push(Outcome::Skipped));
        lemma_append_skipped(s.drop_first());
    } else {
        assert(t.drop_first() =~= Seq::<Outcome>::empty());
        assert(failures_spec(t.drop_first()) == Seq::<AppError>::empty());
        assert(done_count(t.drop_first()) == 0);
    }
}

/// Every outcome of a batch is a success, a failure in the report, or a
/// skipped entry: the report holds exactly one entry per failed file, and
/// successes, failures and skipped entries add up to the entries read.
pub proof fn report_accounts_for_every_entry(s: Seq<Outcome>)
    ensures
        failures_spec(s).len() == failed_count(s),
        done_count(s) + failed_count(s) + skipped_count(s) == s.len(),
{
    lemma_counts(s);
}

/// A metadata file is skipped, and an entry that is skipped changes neither
/// the report nor the count of successes.
pub proof fn sentinel_never_counted(name: Seq<u8>, s: Seq<Outcome>)
    requires
        is_sentinel_spec(name),
    ensures
        failures_spec(s.push(Outcome::Skipped)) == failures_spec(s),
        done_count(s.push(Outcome::Skipped)) == done_count(s),
{
    lemma_append_skipped(s);
}

} // verus!
