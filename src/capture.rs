//! The decisions of the window capture: which window is the application's,
//! what size the saved image has, and where it is written.
use vstd::prelude::*;
use crate::text::{lower_of, lowercase, same_text, join, join3, push_decimal, decimal};

verus! {

/// The name under which the operating system lists the application.
pub const APP_NAME: &'static str = "ghview";

/// The start of every screenshot's file name.
pub const FILE_PREFIX: &'static str = "ghview-screenshot-";

/// The message of a capture that found no window of the application.
pub const WINDOW_NOT_FOUND: &'static str = "ghview window not found (is ghview running?)";

/// The owning-application name of a window is the application's, compared
/// without regard to case.
pub open spec fn is_app_window(name: Option<String>) -> bool {
    name matches Some(n) && lower_of(n@) == APP_NAME@
}

/// The first window, among windows with these owning-application names,
/// that belongs to the application.
pub open spec fn first_app_window(names: Seq<Option<String>>) -> Option<int> {
    if exists|i: int| 0 <= i < names.len() && #[trigger] is_app_window(names[i]) {
        Some(
            choose|i: int|
                0 <= i < names.len() && is_app_window(names[i]) && forall|j: int|
                    0 <= j < i ==> !#[trigger] is_app_window(names[j]),
        )
    } else {
        None
    }
}

/// Whether a name, already lowercased, is the application's.
pub fn is_app_name(lowered: &str) -> (r: bool)
    ensures
        r == (lowered@ == APP_NAME@),
{
    same_text(lowered, APP_NAME)
}

/// Whether a window with this owning-application name (where the system
/// gives one) belongs to the application.
pub fn window_matches(name: &Option<String>) -> (r: bool)
    ensures
        r == is_app_window(*name),
{
    match name {
        Some(n) => is_app_name(lowercase(n.as_str()).as_str()),
        None => false,
    }
}

/// Picks the application's window out of the windows with these
/// owning-application names: the first that matches, or the reason there
/// is none.
pub fn select_window(names: &Vec<Option<String>>) -> (r: Result<usize, String>)
    ensures
        first_app_window(names@) matches Some(i) ==> r == Ok::<usize, String>(i as usize),
        first_app_window(names@) is None ==> (r matches Err(m) && m@ == WINDOW_NOT_FOUND@),
{
    let mut i: usize = 0;
    while i < names.len()
        invariant
            i <= names@.len(),
            forall|j: int| 0 <= j < i ==> !#[trigger] is_app_window(names@[j]),
        decreases names@.len() - i,
    {
        if window_matches(&names[i]) {
            proof {
                let k = choose|k: int|
                    0 <= k < names@.len() && is_app_window(names@[k]) && forall|j: int|
                        0 <= j < k ==> !#[trigger] is_app_window(names@[j]);
                assert(names@[i as int] == names[i as int]);
                assert(k == i) by {
                    if k < i {
                        assert(!is_app_window(names@[k]));
                    } else if k > i {
                        assert(!is_app_window(names@[i as int]));
                    }
                }
            }
            return Ok(i);
        }
        i = i + 1;
    }
    Err(WINDOW_NOT_FOUND.to_string())
}

/// The size of the saved image: the logical size where the captured image
/// is wider or taller than it, else the captured size.
pub open spec fn saved_size(logical: (u32, u32), captured: (u32, u32)) -> (u32, u32) {
    if captured.0 > logical.0 || captured.1 > logical.1 {
        logical
    } else {
        captured
    }
}

/// The size to scale the captured image to before it is saved, or `None`
/// where it is saved as captured.
pub fn resize_target(logical: (u32, u32), captured: (u32, u32)) -> (r: Option<(u32, u32)>)
    ensures
        r is Some <==> (captured.0 > logical.0 || captured.1 > logical.1),
        r matches Some(t) ==> t == logical && t == saved_size(logical, captured),
        r is None ==> captured == saved_size(logical, captured),
{
    if captured.0 > logical.0 || captured.1 > logical.1 {
        Some(logical)
    } else {
        None
    }
}

/// On a display whose device pixel ratio is 1 or more the captured image is
/// at least as large as the logical size in each direction, and the saved
/// image then has exactly the logical size.
pub proof fn law_saved_size_is_logical(logical: (u32, u32), captured: (u32, u32))
    requires
        captured.0 >= logical.0,
        captured.1 >= logical.1,
    ensures
        saved_size(logical, captured) == logical,
{
}

/// The file name of a screenshot taken at `millis` milliseconds after the
/// Unix epoch.
pub open spec fn file_name(millis: nat) -> Seq<char> {
    FILE_PREFIX@ + decimal(millis) + ".png"@
}

/// Whether `c` separates the parts of a path.
pub open spec fn is_separator(c: char) -> bool {
    c == '/'
}

/// `name` placed in the directory `dir`: a separator goes between them
/// unless `dir` is empty or already ends with one.
pub open spec fn in_dir(dir: Seq<char>, name: Seq<char>) -> Seq<char> {
    if dir.len() == 0 || is_separator(dir.last()) {
        dir + name
    } else {
        dir + seq!['/'] + name
    }
}

/// The file name of a screenshot taken at `millis`.
pub fn screenshot_file_name(millis: u64) -> (r: String)
    ensures
        r@ == file_name(millis as nat),
{
    let mut s = FILE_PREFIX.to_string();
    push_decimal(&mut s, millis);
    s.append(".png");
    s
}

/// The path of the file `name` in the directory `dir`.
pub fn path_in_dir(dir: &str, name: &str) -> (r: String)
    ensures
        r@ == in_dir(dir@, name@),
{
    let n = dir.unicode_len();
    if n == 0 {
        return name.to_string();
    }
    if dir.get_char(n - 1) == '/' {
        join(dir, name)
    } else {
        proof {
            reveal_strlit("/");
        }
        let r = join3(dir, "/", name);
        assert(r@ =~= dir@ + seq!['/'] + name@);
        r
    }
}

/// Where the screenshot taken at `millis` is written in `output_dir`.
pub fn screenshot_path(output_dir: &str, millis: u64) -> (r: String)
    ensures
        r@ == in_dir(output_dir@, file_name(millis as nat)),
{
    let name = screenshot_file_name(millis);
    path_in_dir(output_dir, name.as_str())
}

/// Two screenshots taken at different milliseconds into one directory are
/// written to different files.
pub proof fn law_distinct_paths(dir: Seq<char>, a: nat, b: nat)
    requires
        a != b,
    ensures
        in_dir(dir, file_name(a)) != in_dir(dir, file_name(b)),
{
    lemma_file_name_injective(a, b);
    let p = if dir.len() == 0 || is_separator(dir.last()) {
        dir
    } else {
        dir + seq!['/']
    };
    let pa = p + file_name(a);
    let pb = p + file_name(b);
    assert(in_dir(dir, file_name(a)) =~= pa);
    assert(in_dir(dir, file_name(b)) =~= pb);
    assert(file_name(a) =~= pa.subrange(p.len() as int, pa.len() as int));
    assert(file_name(b) =~= pb.subrange(p.len() as int, pb.len() as int));
}

/// Different milliseconds give different file names.
proof fn lemma_file_name_injective(a: nat, b: nat)
    requires
        a != b,
    ensures
        file_name(a) != file_name(b),
{
    reveal_strlit(".png");
    lemma_decimal_injective(a, b);
    let fp = FILE_PREFIX@;
    let da = decimal(a);
    let db = decimal(b);
    let fa = file_name(a);
    let fb = file_name(b);
    assert(fa.len() == fp.len() + da.len() + 4);
    assert(fb.len() == fp.len() + db.len() + 4);
    assert(da =~= fa.subrange(fp.len() as int, (fp.len() + da.len()) as int));
    assert(db =~= fb.subrange(fp.len() as int, (fp.len() + db.len()) as int));
}

/// Different numbers have different decimal digits.
pub proof fn lemma_decimal_injective(a: nat, b: nat)
    requires
        a != b,
    ensures
        decimal(a) != decimal(b),
    decreases a + b,
{
    if a < 10 && b < 10 {
        assert(decimal(a)[0] != decimal(b)[0]);
    } else if a < 10 || b < 10 {
        lemma_decimal_long(if a < 10 { b } else { a });
    } else if a / 10 != b / 10 {
        lemma_decimal_injective(a / 10, b / 10);
        let da = decimal(a);
        let db = decimal(b);
        if da == db {
            assert(decimal(a / 10) =~= da.drop_last());
            assert(decimal(b / 10) =~= db.drop_last());
        }
    } else {
        assert(decimal(a).last() != decimal(b).last());
    }
}

/// Every number has a digit, and one of ten or more has at least two.
proof fn lemma_decimal_long(n: nat)
    ensures
        decimal(n).len() >= 1,
        n >= 10 ==> decimal(n).len() >= 2,
    decreases n,
{
    if n >= 10 {
        lemma_decimal_long(n / 10);
    }
}

/// `sub` occurs in `s`.
pub open spec fn mentions(s: Seq<char>, sub: Seq<char>) -> bool {
    exists|i: int| 0 <= i <= s.len() - sub.len() && #[trigger] s.subrange(i, i + sub.len()) == sub
}

/// A capture that finds no window of the application fails with a message
/// that says the window was not found.
pub proof fn law_not_found_message()
    ensures
        mentions(WINDOW_NOT_FOUND@, "not found"@),
{
    reveal_strlit("ghview window not found (is ghview running?)");
    reveal_strlit("not found");
    let sub = "not found"@;
    let i: int = 14;
    assert(WINDOW_NOT_FOUND@.subrange(i, i + sub.len()) =~= sub);
}

/// The step that a capture has reached.
#[derive(Debug, PartialEq, Eq, Structural)]
pub enum CaptureState {
    ListingWindows,
    PreparingDir,
    Capturing,
    Saving,
    Finished,
}

/// What a capture asks of the system next.
pub enum CaptureAction {
    /// List the owning-application names of all top-level windows.
    ListWindows,
    /// Create this directory, with its parents, where it is missing; then
    /// read the clock.
    EnsureDir(String),
    /// Read the logical size of the window at this position in the list,
    /// and capture its image.
    Capture(usize),
    /// Save the image as PNG at this path, scaled first to the size where
    /// there is one.
    Save(String, Option<(u32, u32)>),
    /// The capture is done: the image is at this path.
    Done(String),
    /// The capture failed, for this reason.
    Failed(String),
}

/// The message of an event that came at the wrong step.
pub const OUT_OF_ORDER: &'static str = "capture steps out of order";

/// One capture of the application's window into a directory: it finds the
/// window first, and only then prepares the directory.
pub struct CaptureJob {
    pub state: CaptureState,
    pub output_dir: String,
    /// The position of the application's window in the list, once found.
    pub window: usize,
    /// Where the image is saved, once the clock was read.
    pub path: String,
}

/// `a` fails the capture with the message `m`.
pub open spec fn fails_with(a: CaptureAction, m: Seq<char>) -> bool {
    a matches CaptureAction::Failed(x) && x@ == m
}

impl CaptureJob {
    /// A capture into `output_dir`; its first step lists the windows.
    pub fn start(output_dir: &str) -> (r: (CaptureJob, CaptureAction))
        ensures
            r.0.state == CaptureState::ListingWindows,
            r.0.output_dir@ == output_dir@,
            r.1 is ListWindows,
    {
        (
            CaptureJob {
                state: CaptureState::ListingWindows,
                output_dir: output_dir.to_string(),
                window: 0,
                path: String::new(),
            },
            CaptureAction::ListWindows,
        )
    }

    /// The windows were listed, by their owning-application names, or could
    /// not be. Where none is the application's the capture fails, saying
    /// that the window was not found, before anything is written; where one
    /// is, the directory is prepared next.
    pub fn on_windows(&mut self, listed: Result<Vec<Option<String>>, String>) -> (a: CaptureAction)
        ensures
            final(self).output_dir == old(self).output_dir,
            final(self).path == old(self).path,
            old(self).state != CaptureState::ListingWindows ==> final(self).state
                == CaptureState::Finished && fails_with(a, OUT_OF_ORDER@),
            old(self).state == CaptureState::ListingWindows ==> match listed {
                Ok(names) => match first_app_window(names@) {
                    Some(i) => final(self).state == CaptureState::PreparingDir
                        && final(self).window == i as usize && (a matches CaptureAction::EnsureDir(d)
                        && d@ == old(self).output_dir@),
                    None => final(self).state == CaptureState::Finished && fails_with(
                        a,
                        WINDOW_NOT_FOUND@,
                    ),
                },
                Err(e) => final(self).state == CaptureState::Finished && fails_with(
                    a,
                    "Failed to enumerate windows: "@ + e@,
                ),
            },
    {
        if self.state != CaptureState::ListingWindows {
            self.state = CaptureState::Finished;
            return CaptureAction::Failed(OUT_OF_ORDER.to_string());
        }
        match listed {
            Ok(names) => match select_window(&names) {
                Ok(i) => {
                    self.window = i;
                    self.state = CaptureState::PreparingDir;
                    CaptureAction::EnsureDir(self.output_dir.clone())
                },
                Err(m) => {
                    self.state = CaptureState::Finished;
                    CaptureAction::Failed(m)
                },
            },
            Err(e) => {
                self.state = CaptureState::Finished;
                CaptureAction::Failed(join("Failed to enumerate windows: ", e.as_str()))
            },
        }
    }

    /// The directory is ready, or could not be made, and the clock read
    /// `millis` milliseconds after the Unix epoch; the window found is
    /// captured next.
    pub fn on_dir_ready(&mut self, outcome: Result<(), String>, millis: u64) -> (a: CaptureAction)
        ensures
            final(self).output_dir == old(self).output_dir,
            final(self).window == old(self).window,
            old(self).state != CaptureState::PreparingDir ==> final(self).state
                == CaptureState::Finished && fails_with(a, OUT_OF_ORDER@),
            old(self).state == CaptureState::PreparingDir ==> match outcome {
                Ok(_) => final(self).state == CaptureState::Capturing && a
                    == CaptureAction::Capture(old(self).window) && final(self).path@ == in_dir(
                    old(self).output_dir@,
                    file_name(millis as nat),
                ),
                Err(e) => final(self).state == CaptureState::Finished && fails_with(
                    a,
                    "Failed to create output directory: "@ + e@,
                ),
            },
    {
        if self.state != CaptureState::PreparingDir {
            self.state = CaptureState::Finished;
            return CaptureAction::Failed(OUT_OF_ORDER.to_string());
        }
        match outcome {
            Ok(()) => {
                self.path = screenshot_path(self.output_dir.as_str(), millis);
                self.state = CaptureState::Capturing;
                CaptureAction::Capture(self.window)
            },
            Err(e) => {
                self.state = CaptureState::Finished;
                CaptureAction::Failed(join("Failed to create output directory: ", e.as_str()))
            },
        }
    }

    /// The window's logical size was read and its image captured, with its
    /// size, or one of them failed. Only a capture that reached this step
    /// saves a file.
    pub fn on_captured(&mut self, outcome: Result<((u32, u32), (u32, u32)), String>) -> (a:
        CaptureAction)
        ensures
            final(self).output_dir == old(self).output_dir,
            final(self).path == old(self).path,
            old(self).state != CaptureState::Capturing ==> final(self).state
                == CaptureState::Finished && fails_with(a, OUT_OF_ORDER@),
            old(self).state == CaptureState::Capturing ==> match outcome {
                Ok((logical, captured)) => final(self).state == CaptureState::Saving && (
                a matches CaptureAction::Save(p, target) && p == old(self).path && (target is Some
                    <==> (captured.0 > logical.0 || captured.1 > logical.1)) && match target {
                    Some(t) => t == logical && t == saved_size(logical, captured),
                    None => captured == saved_size(logical, captured),
                }),
                Err(e) => final(self).state == CaptureState::Finished && fails_with(a, e@),
            },
    {
        if self.state != CaptureState::Capturing {
            self.state = CaptureState::Finished;
            return CaptureAction::Failed(OUT_OF_ORDER.to_string());
        }
        match outcome {
            Ok((logical, captured)) => {
                self.state = CaptureState::Saving;
                CaptureAction::Save(self.path.clone(), resize_target(logical, captured))
            },
            Err(e) => {
                self.state = CaptureState::Finished;
                CaptureAction::Failed(e)
            },
        }
    }

    /// The image was saved, or could not be.
    pub fn on_saved(&mut self, outcome: Result<(), String>) -> (a: CaptureAction)
        ensures
            final(self).state == CaptureState::Finished,
            old(self).state != CaptureState::Saving ==> fails_with(a, OUT_OF_ORDER@),
            old(self).state == CaptureState::Saving ==> match outcome {
                Ok(_) => a matches CaptureAction::Done(p) && p@ == old(self).path@,
                Err(e) => fails_with(a, "Failed to save screenshot: "@ + e@),
            },
    {
        if self.state != CaptureState::Saving {
            self.state = CaptureState::Finished;
            return CaptureAction::Failed(OUT_OF_ORDER.to_string());
        }
        self.state = CaptureState::Finished;
        match outcome {
            Ok(()) => CaptureAction::Done(self.path.clone()),
            Err(e) => CaptureAction::Failed(join("Failed to save screenshot: ", e.as_str())),
        }
    }
}

} // verus!
