use reroute::event::Event;
use reroute::filter::default_filter;
use reroute::retry::Attempt;
use reroute::retry::NextStep;
use reroute::retry::RetryPolicy;
use reroute::route::MovePlan;
use reroute::route::ReRoute;
use reroute::route::RouteError;
use reroute::router::Decision;
use reroute::router::RunningReRouter;
use std::collections::BTreeSet;
use std::path::Path;

const CREATE: u32 = 0x100;
const MOVED_FROM: u32 = 0x40;
const MOVED_TO: u32 = 0x80;
const ISDIR: u32 = 0x4000_0000;

/// Why a move did not happen.
#[derive(Debug, Clone, PartialEq, Eq)]
enum Failure {
    Refused(RouteError),
    NotFound,
    Denied,
}

/// A file system in memory, with a record of what was done to it.
#[derive(Debug, Default)]
struct Disk {
    files: BTreeSet<Vec<u8>>,
    late: Vec<Vec<u8>>,
    locked: BTreeSet<Vec<u8>>,
    log: Vec<String>,
    renames: u32,
    sleeps: Vec<u64>,
}

impl Disk {
    fn with(files: &[&str]) -> Disk {
        let mut disk = Disk::default();
        for file in files {
            disk.files.insert(file.as_bytes().to_vec());
        }
        disk
    }

    fn has(&self, path: &str) -> bool {
        self.files.contains(path.as_bytes())
    }

    fn rename(&mut self, from: &Vec<u8>, to: &Vec<u8>) -> Attempt {
        self.renames += 1;
        if !self.files.contains(from) {
            Attempt::SourceMissing
        } else if self.locked.contains(from) {
            Attempt::Failed
        } else {
            self.files.remove(from);
            self.files.insert(to.clone());
            Attempt::Moved
        }
    }

    fn sleep(&mut self, millis: u64) {
        self.sleeps.push(millis);
        for path in self.late.drain(..) {
            self.files.insert(path);
        }
    }
}

fn text(path: &Vec<u8>) -> &str {
    std::str::from_utf8(path).unwrap()
}

/// Carries out one move the way a caller of the library does.
fn carry_out(disk: &mut Disk, plan: &MovePlan, policy: &RetryPolicy) -> Result<(), Failure> {
    let taken = disk.files.contains(&plan.to);
    if let Err(error) = plan.check_destination(taken) {
        return Err(Failure::Refused(error));
    }
    disk.log.push(format!("{:?} => {:?}", Path::new(text(&plan.from)), Path::new(text(&plan.to))));
    let mut retries: u32 = 0;
    loop {
        let attempt = disk.rename(&plan.from, &plan.to);
        match policy.after_attempt(retries, attempt) {
            NextStep::Done => return Ok(()),
            NextStep::RetryAfter(millis) => {
                disk.sleep(millis);
                retries += 1;
            }
            NextStep::GiveUp => {
                return Err(if attempt == Attempt::SourceMissing {
                    Failure::NotFound
                } else {
                    Failure::Denied
                });
            }
        }
    }
}

/// Feeds the events to a router on `/tmp/in` and `/tmp/out` and collects what the
/// error handler would be told.
fn watch<F: Fn(&Event) -> bool>(disk: &mut Disk, filter: F, events: &[Event]) -> Vec<Failure> {
    let route = ReRoute::new(b"/tmp/in".to_vec(), b"/tmp/out".to_vec());
    let policy = RetryPolicy::standard();
    let mut router = RunningReRouter::new(&route, filter);
    let mut reported = Vec::new();
    for event in events {
        let result = match router.handle_event(event) {
            Ok(Decision::Move(plan)) => carry_out(disk, &plan, &policy),
            Ok(_) => Ok(()),
            Err(error) => Err(Failure::Refused(error)),
        };
        if let Err(failure) = result {
            reported.push(failure);
        }
    }
    reported
}

fn event(mask: u32, name: &str) -> Event {
    Event::new(mask, 0, Some(name.as_bytes().to_vec()))
}

#[test]
fn created_report_is_moved_and_logged() {
    let mut disk = Disk::with(&["/tmp/in/report.pdf"]);
    let reported = watch(&mut disk, default_filter, &[event(CREATE, "report.pdf")]);
    assert_eq!(reported, vec![]);
    assert_eq!(disk.log, vec!["\"/tmp/in/report.pdf\" => \"/tmp/out/report.pdf\"".to_string()]);
    assert!(disk.has("/tmp/out/report.pdf"));
    assert!(!disk.has("/tmp/in/report.pdf"));
    assert_eq!(disk.renames, 1);
    assert_eq!(disk.sleeps, Vec::<u64>::new());
}

#[test]
fn partial_tmp_is_left_alone_and_the_watch_goes_on() {
    let mut disk = Disk::with(&["/tmp/in/partial.tmp", "/tmp/in/next.txt"]);
    let events = [event(CREATE, "partial.tmp"), event(CREATE, "next.txt")];
    let reported = watch(&mut disk, default_filter, &events);
    assert_eq!(reported, vec![]);
    assert!(disk.has("/tmp/in/partial.tmp"));
    assert!(!disk.has("/tmp/out/partial.tmp"));
    assert_eq!(disk.log, vec!["\"/tmp/in/next.txt\" => \"/tmp/out/next.txt\"".to_string()]);
    assert!(disk.has("/tmp/out/next.txt"));
    assert_eq!(disk.renames, 1);
}

#[test]
fn accepted_file_leaves_the_source() {
    let mut disk = Disk::with(&["/tmp/in/a.bin", "/tmp/in/b.bin"]);
    let reported = watch(&mut disk, |_: &Event| true, &[event(CREATE, "a.bin")]);
    assert_eq!(reported, vec![]);
    assert!(disk.has("/tmp/out/a.bin"));
    assert!(!disk.has("/tmp/in/a.bin"));
    assert!(disk.has("/tmp/in/b.bin"));
}

#[test]
fn existing_destination_leaves_both_files_untouched() {
    let mut disk = Disk::with(&["/tmp/in/a.bin", "/tmp/out/a.bin"]);
    let reported = watch(&mut disk, |_: &Event| true, &[event(CREATE, "a.bin")]);
    assert_eq!(reported, vec![Failure::Refused(RouteError::AlreadyExists)]);
    assert!(disk.has("/tmp/in/a.bin"));
    assert!(disk.has("/tmp/out/a.bin"));
    assert_eq!(disk.renames, 0);
    assert_eq!(disk.log, Vec::<String>::new());
    assert_eq!(disk.sleeps, Vec::<u64>::new());
}

#[test]
fn missing_source_that_turns_up_is_moved_at_the_second_attempt() {
    let mut disk = Disk::with(&[]);
    disk.late.push(b"/tmp/in/slow.iso".to_vec());
    let reported = watch(&mut disk, |_: &Event| true, &[event(CREATE, "slow.iso")]);
    assert_eq!(reported, vec![]);
    assert_eq!(disk.renames, 2);
    assert_eq!(disk.sleeps, vec![1000]);
    assert!(disk.has("/tmp/out/slow.iso"));
    assert!(!disk.has("/tmp/in/slow.iso"));
    assert_eq!(disk.log.len(), 1);
}

#[test]
fn missing_source_that_stays_away_is_reported_once() {
    let mut disk = Disk::with(&[]);
    let reported = watch(&mut disk, |_: &Event| true, &[event(CREATE, "ghost")]);
    assert_eq!(reported, vec![Failure::NotFound]);
    assert_eq!(disk.renames, 2);
    assert_eq!(disk.sleeps, vec![1000]);
    assert!(!disk.has("/tmp/out/ghost"));
}

#[test]
fn other_failure_is_reported_without_retry() {
    let mut disk = Disk::with(&["/tmp/in/locked"]);
    disk.locked.insert(b"/tmp/in/locked".to_vec());
    let reported = watch(&mut disk, |_: &Event| true, &[event(CREATE, "locked")]);
    assert_eq!(reported, vec![Failure::Denied]);
    assert_eq!(disk.renames, 1);
    assert_eq!(disk.sleeps, Vec::<u64>::new());
    assert!(disk.has("/tmp/in/locked"));
}

#[test]
fn failure_at_the_retry_is_reported_without_another() {
    let mut disk = Disk::with(&[]);
    disk.late.push(b"/tmp/in/locked".to_vec());
    disk.locked.insert(b"/tmp/in/locked".to_vec());
    let reported = watch(&mut disk, |_: &Event| true, &[event(CREATE, "locked")]);
    assert_eq!(reported, vec![Failure::Denied]);
    assert_eq!(disk.renames, 2);
    assert_eq!(disk.sleeps, vec![1000]);
}

#[test]
fn one_failed_move_does_not_stop_the_watch() {
    let mut disk = Disk::with(&["/tmp/in/a", "/tmp/out/a", "/tmp/in/b"]);
    let events = [event(CREATE, "a"), Event::new(CREATE, 0, None), event(CREATE, "b")];
    let reported = watch(&mut disk, |_: &Event| true, &events);
    assert_eq!(
        reported,
        vec![
            Failure::Refused(RouteError::AlreadyExists),
            Failure::Refused(RouteError::MissingName)
        ]
    );
    assert!(disk.has("/tmp/out/b"));
    assert!(!disk.has("/tmp/in/b"));
    assert!(disk.has("/tmp/in/a"));
}

#[test]
fn rename_inside_the_source_moves_the_new_name_once() {
    let mut disk = Disk::with(&["/tmp/in/final.txt"]);
    let events = [event(MOVED_FROM, "draft.txt"), event(MOVED_TO, "final.txt")];
    let reported = watch(&mut disk, default_filter, &events);
    assert_eq!(reported, vec![]);
    assert_eq!(disk.renames, 1);
    assert_eq!(disk.log, vec!["\"/tmp/in/final.txt\" => \"/tmp/out/final.txt\"".to_string()]);
    assert!(disk.has("/tmp/out/final.txt"));
}

#[test]
fn departure_alone_moves_nothing() {
    let mut disk = Disk::with(&["/tmp/in/a"]);
    let reported = watch(&mut disk, |_: &Event| true, &[event(MOVED_FROM, "a")]);
    assert_eq!(reported, vec![]);
    assert_eq!(disk.renames, 0);
    assert!(disk.has("/tmp/in/a"));
}

#[test]
fn created_directory_is_never_moved() {
    let mut disk = Disk::with(&["/tmp/in/photos"]);
    let events = [event(CREATE | ISDIR, "photos"), event(MOVED_TO | ISDIR, "photos")];
    let reported = watch(&mut disk, |_: &Event| true, &events);
    assert_eq!(reported, vec![]);
    assert_eq!(disk.renames, 0);
    assert_eq!(disk.log, Vec::<String>::new());
    assert!(disk.has("/tmp/in/photos"));
}

#[test]
fn download_that_is_renamed_when_complete_is_moved_then() {
    let mut disk = Disk::with(&["/tmp/in/movie.tmp"]);
    let reported = watch(&mut disk, default_filter, &[event(CREATE, "movie.tmp")]);
    assert_eq!(reported, vec![]);
    assert_eq!(disk.renames, 0);
    disk.files.remove(&b"/tmp/in/movie.tmp".to_vec());
    disk.files.insert(b"/tmp/in/movie.mkv".to_vec());
    let events = [event(MOVED_FROM, "movie.tmp"), event(MOVED_TO, "movie.mkv")];
    let reported = watch(&mut disk, default_filter, &events);
    assert_eq!(reported, vec![]);
    assert!(disk.has("/tmp/out/movie.mkv"));
    assert_eq!(disk.renames, 1);
}
