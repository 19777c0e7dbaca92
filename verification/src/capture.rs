//! Active capture by a global hotkey.
//!
//! The hotkey runs the system's interactive screenshot tool. It writes to a
//! temporary file and not to the clipboard, so the watcher never sees the image
//! and cannot upload it again.

use vstd::prelude::*;

use crate::text::to_decimal;

verus! {

/// The screenshot tool, by its absolute path: the app may be started with a
/// minimal search path.
pub const SCREENCAPTURE_BIN: &'static str = "/usr/sbin/screencapture";

/// Asks the tool for an interactive region or window selection.
pub const SCREENCAPTURE_FLAG: &'static str = "-i";

/// The name of the temporary file for a capture.
pub open spec fn file_name(nanos: nat) -> Seq<char> {
    "pixelvault-capture-"@ + crate::text::decimal(nanos) + ".png"@
}

/// Names the temporary file for a capture at `nanos`, the nanoseconds since the
/// epoch where the clock gives them.
pub fn temp_file_name(nanos: Option<u128>) -> (r: String)
    ensures
        r@ == file_name(
            match nanos {
                Some(n) => n as nat,
                None => 0,
            },
        ),
{
    let n: u128 = match nanos {
        Some(n) => n,
        None => 0,
    };
    "pixelvault-capture-".to_owned().concat(to_decimal(n).as_str()).concat(".png")
}

/// How the screenshot tool ended.
pub enum CaptureRun {
    Exited { success: bool },
    /// It could not be started.
    NotStarted(String),
}

/// What to do after the screenshot tool ended.
pub enum CaptureStep {
    /// Read the file that it wrote.
    ReadFile,
    /// Nothing more.
    Stop,
    /// Tell the user.
    Notify { title: String, body: String },
}

/// What a `CaptureStep` stands for.
#[verifier::ext_equal]
pub enum CaptureStepView {
    ReadFile,
    Stop,
    Notify { title: Seq<char>, body: Seq<char> },
}

impl View for CaptureStep {
    type V = CaptureStepView;

    open spec fn view(&self) -> CaptureStepView {
        match self {
            CaptureStep::ReadFile => CaptureStepView::ReadFile,
            CaptureStep::Stop => CaptureStepView::Stop,
            CaptureStep::Notify { title, body } => CaptureStepView::Notify {
                title: title@,
                body: body@,
            },
        }
    }
}

/// What to do after a run of the screenshot tool.
pub open spec fn step_after(run: CaptureRun) -> CaptureStepView {
    match run {
        CaptureRun::Exited { success } => if success {
            CaptureStepView::ReadFile
        } else {
            CaptureStepView::Stop
        },
        CaptureRun::NotStarted(m) => CaptureStepView::Notify {
            title: "Capture failed"@,
            body: "Could not run screencapture: "@ + m@,
        },
    }
}

/// Decides what to do after a run of the screenshot tool.
pub fn after_run(run: CaptureRun) -> (r: CaptureStep)
    ensures
        r@ == step_after(run),
{
    match run {
        CaptureRun::Exited { success } => if success {
            CaptureStep::ReadFile
        } else {
            CaptureStep::Stop
        },
        CaptureRun::NotStarted(m) => CaptureStep::Notify {
            title: "Capture failed".to_owned(),
            body: "Could not run screencapture: ".to_owned().concat(m.as_str()),
        },
    }
}

/// The file to upload, from what reading the temporary file gave. Where the
/// selection was cancelled there is no file, or an empty one, and nothing to do.
/// A file that is uploaded is removed first.
pub fn after_read(file: Option<Vec<u8>>) -> (r: Option<Vec<u8>>)
    ensures
        match file {
            Some(bytes) => if bytes@.len() > 0 {
                r matches Some(b) && b@ == bytes@
            } else {
                r is None
            },
            None => r is None,
        },
{
    match file {
        Some(bytes) => if bytes.len() > 0 {
            Some(bytes)
        } else {
            None
        },
        None => None,
    }
}

/// Captures at different times go to different files.
pub proof fn captures_have_their_own_files(m: nat, n: nat)
    requires
        m != n,
    ensures
        file_name(m) != file_name(n),
{
    if file_name(m) == file_name(n) {
        let head = "pixelvault-capture-"@;
        let tail = ".png"@;
        let a = crate::text::decimal(m);
        let b = crate::text::decimal(n);
        assert(file_name(m).len() == head.len() + a.len() + tail.len());
        assert(file_name(n).len() == head.len() + b.len() + tail.len());
        assert(a =~= file_name(m).subrange(head.len() as int, (head.len() + a.len()) as int));
        assert(b =~= file_name(n).subrange(head.len() as int, (head.len() + b.len()) as int));
        crate::text::decimal_is_injective(m, n);
    }
}

/// The name of a capture's file holds its time, between a fixed start and the
/// ending of a PNG file.
pub proof fn capture_files_hold_their_time(nanos: nat)
    ensures
        ({
            let name = file_name(nanos);
            let head = "pixelvault-capture-"@.len() as int;
            let tail = name.len() - ".png"@.len();
            &&& head <= tail
            &&& name.take(head) == "pixelvault-capture-"@
            &&& name.skip(tail) == ".png"@
            &&& crate::text::number(name.subrange(head, tail)) == nanos
        }),
{
    let name = file_name(nanos);
    let head = "pixelvault-capture-"@.len() as int;
    let tail = name.len() - ".png"@.len();
    crate::text::decimal_reads_back(nanos);
    assert(name.take(head) =~= "pixelvault-capture-"@);
    assert(name.skip(tail) =~= ".png"@);
    assert(name.subrange(head, tail) =~= crate::text::decimal(nanos));
}

/// The file is read exactly after a success; a tool that could not be started is
/// reported with the reason, whatever it is, and one that gave up is not.
pub proof fn captures_go_on_after_a_success_only(success: bool, reason: String)
    ensures
        step_after((CaptureRun::Exited { success })) is ReadFile <==> success,
        step_after((CaptureRun::Exited { success })) is Stop <==> !success,
        ({
            let said = step_after(CaptureRun::NotStarted(reason));
            let head = "Could not run screencapture: "@;
            &&& said is Notify
            &&& said->title == "Capture failed"@
            &&& said->body.take(head.len() as int) == head
            &&& said->body.skip(head.len() as int) == reason@
        }),
{
    let head = "Could not run screencapture: "@;
    assert((head + reason@).take(head.len() as int) =~= head);
    assert((head + reason@).skip(head.len() as int) =~= reason@);
}

/// The view of a step keeps its texts.
pub proof fn capture_views_keep_their_contents(title: String, body: String)
    ensures
        CaptureStep::ReadFile@ == CaptureStepView::ReadFile,
        CaptureStep::Stop@ == CaptureStepView::Stop,
        (CaptureStep::Notify { title, body })@ == (CaptureStepView::Notify {
            title: title@,
            body: body@,
        }),
        SCREENCAPTURE_BIN@ == "/usr/sbin/screencapture"@,
        SCREENCAPTURE_FLAG@ == "-i"@,
{
}

/// A capture with bytes in it is handed on as it is; an empty or a missing file
/// is not. The file is named by its time.
pub proof fn captures_are_handed_on(
    file: Option<Vec<u8>>,
    read: Option<Vec<u8>>,
    nanos: u128,
    name: String,
)
    requires
        call_ensures(after_read, (file,), read),
        call_ensures(temp_file_name, (Some(nanos),), name),
    ensures
        read is Some <==> file is Some && file->0@.len() > 0,
        read is Some ==> read->0@ == file->0@,
        name@ == "pixelvault-capture-"@ + crate::text::decimal(nanos as nat) + ".png"@,
{
}

} // verus!
