//! What the tables show, told by the items that they show.

use crate::api::{PkgRelease, QueueItem, QueueList, Status, Worker};
use crate::paint::{
    blue_text, bold, bold_text, bright_black, bright_black_text, green, green_text, prints, shown,
    yellow, yellow_text,
};
use crate::table::{
    package_cells, package_line, package_lines, package_row, queue_cells, queue_line, queue_lines,
    queue_row, queue_running_seconds, running_seconds, running_text, shows_package,
    shows_queue_item, shows_worker, spec_package_cells, spec_package_row, spec_queue_cells,
    spec_queue_row, spec_worker_cells, spec_worker_row, started_text, worker_cells, worker_line,
    worker_lines, worker_row, worker_status_style, worker_status_text, PackageCells, QueueCells,
    StatusLabels, WorkerCells,
};
use crate::text::{debug_form, left_aligned, left_column};
use crate::time::{chrono_format, Timestamp};
use colored::{Color, ColoredString};
use vstd::prelude::*;
use vstd::string::to_string_from_display_ensures;

verus! {

/// A column of at least `width` characters: `text`, with nothing but blanks behind it.
pub open spec fn padded(text: Seq<char>, width: nat) -> Seq<char> {
    Seq::new(
        if text.len() < width {
            width
        } else {
            text.len()
        },
        |i: int|
            if i < text.len() {
                text[i]
            } else {
                ' '
            },
    )
}

/// A text in a column is never cut, and fills the column up with blanks.
pub proof fn lemma_columns_are_padded(text: &str, width: usize, cell: String)
    requires
        call_ensures(left_column, (text, width), cell),
    ensures
        cell@ == padded(text@, width as nat),
{
    lemma_padded(text@, width as nat);
}

proof fn lemma_padded(text: Seq<char>, width: nat)
    ensures
        left_aligned(text, width) == padded(text, width),
{
    assert(left_aligned(text, width) =~= padded(text, width));
}

/// `text` is what `colored` printed for `cell`.
pub open spec fn is_printed(cell: ColoredString, text: String) -> bool {
    to_string_from_display_ensures::<ColoredString>(&cell, text)
}

/// The line of a worker holds all of its key, its address and its status, in their places.
pub proof fn lemma_worker_row_holds_everything(key: &str, addr: &str, status: &str, row: String)
    requires
        call_ensures(worker_row, (key, addr, status), row),
    ensures
        row@ == padded(key@ + " ("@ + addr@ + ")"@, 40) + " => "@ + status@,
{
    lemma_padded(key@ + " ("@ + addr@ + ")"@, 40);
}

/// The key of a worker is green and its address yellow. What it works on is quoted in full, in
/// bold; an idle worker is called so, in blue.
pub proof fn lemma_worker_cells_hold_the_worker(worker: Worker, cells: WorkerCells)
    requires
        call_ensures(worker_cells, (&worker,), cells),
    ensures
        cells.key == green_text(worker.key@),
        cells.key.input@ == worker.key@,
        cells.key.fgcolor == Some(Color::Green),
        cells.addr == yellow_text(worker.addr@),
        cells.addr.input@ == worker.addr@,
        cells.addr.fgcolor == Some(Color::Yellow),
        worker.status matches Some(status) ==> {
            &&& cells.status == bold_text(debug_form(status@))
            &&& cells.status.input@ == debug_form(status@)
            &&& cells.status.fgcolor is None
        },
        worker.status is None ==> {
            &&& cells.status == blue_text("idle"@)
            &&& cells.status.input@ == "idle"@
            &&& cells.status.fgcolor == Some(Color::Blue)
        },
        cells.key.bgcolor is None && cells.addr.bgcolor is None && cells.status.bgcolor is None,
{
}

/// What a worker works on, quoted in full and in bold, or that it is idle, in blue.
pub open spec fn told_status(worker: Worker) -> ColoredString {
    match worker.status {
        Some(status) => bold_text(debug_form(status@)),
        None => blue_text("idle"@),
    }
}

/// `line` is laid out from what `colored` printed for the key, the address and the whole status
/// of `worker`.
pub open spec fn tells_worker(worker: Worker, line: Seq<char>) -> bool {
    exists|key: String, addr: String, status: String|
        {
            &&& #[trigger] is_printed(green_text(worker.key@), key)
            &&& #[trigger] is_printed(yellow_text(worker.addr@), addr)
            &&& #[trigger] is_printed(told_status(worker), status)
            &&& line == padded(key@ + " ("@ + addr@ + ")"@, 40) + " => "@ + status@
        }
}

/// The line of a worker tells everything about it.
pub proof fn lemma_worker_line_tells_the_worker(worker: Worker, line: String)
    requires
        call_ensures(worker_line, (&worker,), line),
    ensures
        tells_worker(worker, line@),
{
    lemma_tells_worker(worker, line@);
}

/// There is one line per worker, in the order of the workers, and each tells its worker.
pub proof fn lemma_worker_lines_tell_the_workers(workers: Vec<Worker>, lines: Vec<String>)
    requires
        call_ensures(worker_lines, (&workers,), lines),
    ensures
        lines@.len() == workers@.len(),
        forall|i: int|
            0 <= i < workers@.len() ==> tells_worker(workers@[i], (#[trigger] lines@[i])@),
{
    assert forall|i: int| 0 <= i < workers@.len() implies tells_worker(
        workers@[i],
        (#[trigger] lines@[i])@,
    ) by {
        lemma_tells_worker(workers@[i], lines@[i]@);
    }
}

/// The label of a package is the one of its status.
pub proof fn lemma_labels_are_those_of_the_status(
    labels: StatusLabels,
    status: Status,
    label: &str,
)
    requires
        call_ensures(StatusLabels::label, (&labels, status), label),
    ensures
        status is Good ==> label@ == labels.good@,
        status is Bad ==> label@ == labels.bad@,
        status is Unknown ==> label@ == labels.unknown@,
{
}

/// The line of a package holds all of its cells, in their places.
pub proof fn lemma_package_row_holds_everything(
    status: &str,
    name: &str,
    version: &str,
    distro: &str,
    suite: &str,
    architecture: &str,
    url: &str,
    row: String,
)
    requires
        call_ensures(package_row, (status, name, version, distro, suite, architecture, url), row),
    ensures
        row@ == status@ + " "@ + padded(name@ + " "@ + version@, 60) + " ("@ + distro@ + ", "@
            + suite@ + ", "@ + architecture@ + ") "@ + url@,
{
    lemma_padded(name@ + " "@ + version@, 60);
}

/// The label of a package is in brackets, and it, the name and the version are in bold.
pub proof fn lemma_package_cells_hold_the_package(
    package: PkgRelease,
    label: &str,
    cells: PackageCells,
)
    requires
        call_ensures(package_cells, (&package, label), cells),
    ensures
        cells.status == bold_text("["@ + label@ + "]"@),
        cells.status.input@ == "["@ + label@ + "]"@,
        cells.name == bold_text(package.name@),
        cells.name.input@ == package.name@,
        cells.version == bold_text(package.version@),
        cells.version.input@ == package.version@,
        cells.status.fgcolor is None && cells.name.fgcolor is None && cells.version.fgcolor is None,
        cells.status.bgcolor is None && cells.name.bgcolor is None && cells.version.bgcolor is None,
{
}

/// `line` is laid out from what `colored` printed for the bracketed `label`, the name and the
/// version of `package`, from where it belongs, and from its quoted URL.
pub open spec fn tells_package(package: PkgRelease, label: Seq<char>, line: Seq<char>) -> bool {
    exists|status: String, name: String, version: String|
        {
            &&& #[trigger] is_printed(bold_text("["@ + label + "]"@), status)
            &&& #[trigger] is_printed(bold_text(package.name@), name)
            &&& #[trigger] is_printed(bold_text(package.version@), version)
            &&& line == status@ + " "@ + padded(name@ + " "@ + version@, 60) + " ("@
                + package.distro@ + ", "@ + package.suite@ + ", "@ + package.architecture@ + ") "@
                + debug_form(package.url@)
        }
}

/// The line of a package tells everything about it.
pub proof fn lemma_package_line_tells_the_package(package: PkgRelease, label: &str, line: String)
    requires
        call_ensures(package_line, (&package, label), line),
    ensures
        tells_package(package, label@, line@),
{
    lemma_tells_package(package, label@, line@);
}

/// There is one line per package, in the order of the packages, and each tells its package, with
/// the label of its own status.
pub proof fn lemma_package_lines_tell_the_packages(
    packages: Vec<PkgRelease>,
    labels: StatusLabels,
    lines: Vec<String>,
)
    requires
        call_ensures(package_lines, (&packages, &labels), lines),
    ensures
        lines@.len() == packages@.len(),
        forall|i: int|
            0 <= i < packages@.len() ==> tells_package(
                packages@[i],
                match packages@[i].status {
                    Status::Good => labels.good@,
                    Status::Bad => labels.bad@,
                    Status::Unknown => labels.unknown@,
                },
                (#[trigger] lines@[i])@,
            ),
{
    assert forall|i: int| 0 <= i < packages@.len() implies tells_package(
        packages@[i],
        match packages@[i].status {
            Status::Good => labels.good@,
            Status::Bad => labels.bad@,
            Status::Unknown => labels.unknown@,
        },
        (#[trigger] lines@[i])@,
    ) by {
        lemma_tells_package(
            packages@[i],
            labels.spec_label(packages@[i].status),
            lines@[i]@,
        );
    }
}

/// An item that was started has been running for as long as `chrono` says it is from its start
/// until now, and one that was not started has not been running at all.
pub proof fn lemma_running_time_is_the_time_since_the_start(
    item: QueueItem,
    now: Timestamp,
    running: Option<i64>,
    since: i64,
)
    requires
        call_ensures(running_seconds, (&item, &now), running),
        item.started_at matches Some(started_at) ==> call_ensures(
            Timestamp::seconds_since,
            (&now, &started_at),
            since,
        ),
    ensures
        item.started_at is Some ==> running == Some(since),
        item.started_at is None ==> running is None,
{
}

/// The running time of an item is the time that has passed since its start, to the second.
pub proof fn lemma_running_time_is_the_elapsed_time(
    item: QueueItem,
    now: Timestamp,
    started_at: Timestamp,
    running: Option<i64>,
)
    requires
        call_ensures(running_seconds, (&item, &now), running),
        item.started_at == Some(started_at),
        0 <= now.nanos() < 1_000_000_000,
        0 <= started_at.nanos() < 1_000_000_000,
    ensures
        running is Some,
        ({
            let elapsed = (now.secs() * 1_000_000_000 + now.nanos()) - (started_at.secs()
                * 1_000_000_000 + started_at.nanos());
            &&& elapsed >= 0 ==> 0 <= elapsed - running->0 * 1_000_000_000 < 1_000_000_000
            &&& elapsed <= 0 ==> -1_000_000_000 < elapsed - running->0 * 1_000_000_000 <= 0
        }),
{
}

/// An item that runs for any number of seconds more has a running time of that many seconds more.
pub proof fn lemma_running_time_passes_with_the_clock(
    item: QueueItem,
    now: Timestamp,
    later: Timestamp,
    started_at: Timestamp,
    running: Option<i64>,
    running_later: Option<i64>,
    k: nat,
)
    requires
        call_ensures(running_seconds, (&item, &now), running),
        call_ensures(running_seconds, (&item, &later), running_later),
        item.started_at == Some(started_at),
        0 <= now.nanos() < 1_000_000_000,
        0 <= started_at.nanos() < 1_000_000_000,
        started_at.secs() * 1_000_000_000 + started_at.nanos() <= now.secs() * 1_000_000_000
            + now.nanos(),
        later.secs() == now.secs() + k,
        later.nanos() == now.nanos(),
    ensures
        running is Some,
        running_later is Some,
        running_later->0 == running->0 + k,
{
    lemma_running_time_is_the_elapsed_time(item, now, started_at, running);
    lemma_running_time_is_the_elapsed_time(item, later, started_at, running_later);
}

/// The running times of a queue are those of its items, in their order, at the time at which the
/// daemon answered.
pub proof fn lemma_running_times_of_a_queue(
    list: QueueList,
    times: Vec<Option<i64>>,
    i: int,
    since: i64,
)
    requires
        call_ensures(queue_running_seconds, (&list,), times),
        0 <= i < list.queue@.len(),
        list.queue@[i].started_at matches Some(started_at) ==> call_ensures(
            Timestamp::seconds_since,
            (&list.now, &started_at),
            since,
        ),
    ensures
        times@.len() == list.queue@.len(),
        list.queue@[i].started_at is Some ==> times@[i] == Some(since),
        list.queue@[i].started_at is None ==> times@[i] is None,
{
    let time = times@[i];
}

/// The line of a queue item holds all of its cells, in their places.
pub proof fn lemma_queue_row_holds_everything(
    queued: &str,
    name: &str,
    version: &str,
    running: &str,
    started: &str,
    distro: &str,
    suite: &str,
    architecture: &str,
    row: String,
)
    requires
        call_ensures(
            queue_row,
            (queued, name, version, running, started, distro, suite, architecture),
            row,
        ),
    ensures
        row@ == queued@ + " "@ + padded(name@ + " "@ + version@, 60) + " "@ + running@ + " "@
            + padded(started@, 19) + " "@ + distro@ + " "@ + suite@ + " "@ + architecture@,
{
    lemma_padded(name@ + " "@ + version@, 60);
    lemma_padded(started@, 19);
}

/// The time at which an item was queued is gray, its name bold and its running time green. The
/// running time of an item that was not started is left blank.
pub proof fn lemma_queue_cells_hold_the_item(item: QueueItem, running: &str, cells: QueueCells)
    requires
        call_ensures(queue_cells, (&item, running), cells),
    ensures
        cells.queued == bright_black_text(time_text(item.queued_at)),
        cells.queued.input@ == time_text(item.queued_at),
        cells.queued.fgcolor == Some(Color::BrightBlack),
        cells.name == bold_text(item.package.name@),
        cells.name.input@ == item.package.name@,
        cells.name.fgcolor is None,
        item.started_at is Some ==> cells.running == green_text(padded(running@, 11)),
        item.started_at is None ==> cells.running == green_text(Seq::new(11, |i: int| ' ')),
        cells.running.input@.len() >= 11,
        item.started_at is Some ==> cells.running.input@ == padded(running@, 11),
        item.started_at is None ==> cells.running.input@ == Seq::new(11, |i: int| ' '),
        cells.running.fgcolor == Some(Color::Green),
        cells.queued.bgcolor is None && cells.name.bgcolor is None && cells.running.bgcolor is None,
{
    lemma_padded(running@, 11);
    lemma_padded(Seq::empty(), 11);
    assert(padded(Seq::empty(), 11) =~= Seq::new(11, |i: int| ' '));
}

/// A point in time, to the second.
pub open spec fn time_text(time: Timestamp) -> Seq<char> {
    chrono_format(time.secs(), time.nanos(), "%Y-%m-%d %H:%M:%S"@)
}

/// A green column of `running` for an item that was started, and of blanks for another.
pub open spec fn told_running(item: QueueItem, running: Seq<char>) -> ColoredString {
    match item.started_at {
        Some(_) => green_text(padded(running, 11)),
        None => green_text(Seq::new(11, |i: int| ' ')),
    }
}

/// `line` is laid out from what `colored` printed for the time at which `item` was queued, its
/// name and its running time, from its version, the time of its start, and from where it belongs,
/// quoted. What is about the start is left blank for an item that was not started.
pub open spec fn tells_queue_item(item: QueueItem, running: Seq<char>, line: Seq<char>) -> bool {
    exists|queued: String, name: String, running_cell: String|
        {
            &&& #[trigger] is_printed(bright_black_text(time_text(item.queued_at)), queued)
            &&& #[trigger] is_printed(bold_text(item.package.name@), name)
            &&& #[trigger] is_printed(told_running(item, running), running_cell)
            &&& line == queued@ + " "@ + padded(name@ + " "@ + item.package.version@, 60) + " "@
                + running_cell@ + " "@ + match item.started_at {
                Some(started_at) => padded(time_text(started_at), 19),
                None => Seq::new(19, |i: int| ' '),
            } + " "@ + debug_form(item.package.distro@) + " "@ + debug_form(item.package.suite@)
                + " "@ + debug_form(item.package.architecture@)
        }
}

/// The line of a queue item tells everything about it.
pub proof fn lemma_queue_line_tells_the_item(item: QueueItem, running: &str, line: String)
    requires
        call_ensures(queue_line, (&item, running), line),
    ensures
        tells_queue_item(item, running@, line@),
{
    lemma_tells_queue_item(item, running@, line@);
}

/// There is one line per item, in the order of the queue, and each tells its item, with its own
/// running time.
pub proof fn lemma_queue_lines_tell_the_items(
    list: QueueList,
    running: Vec<String>,
    lines: Vec<String>,
)
    requires
        running@.len() == list.queue@.len(),
        call_ensures(queue_lines, (&list, &running), lines),
    ensures
        lines@.len() == list.queue@.len(),
        forall|i: int|
            0 <= i < list.queue@.len() ==> tells_queue_item(
                list.queue@[i],
                running@[i]@,
                (#[trigger] lines@[i])@,
            ),
{
    assert forall|i: int| 0 <= i < list.queue@.len() implies tells_queue_item(
        list.queue@[i],
        running@[i]@,
        (#[trigger] lines@[i])@,
    ) by {
        lemma_tells_queue_item(list.queue@[i], running@[i]@, lines@[i]@);
    }
}

/// The text that `colored` printed for a cell.
spec fn printed_text(cell: ColoredString, output: Seq<char>) -> String {
    choose|text: String| is_printed(cell, text) && text@ == output
}

proof fn lemma_printed_text(cell: ColoredString, output: Seq<char>)
    requires
        prints(cell, output),
    ensures
        is_printed(cell, printed_text(cell, output)),
        printed_text(cell, output)@ == output,
{
    let text = choose|text: String| #[trigger]
        to_string_from_display_ensures::<ColoredString>(&cell, text) && text@ == output;
    assert(is_printed(cell, text) && text@ == output);
}

proof fn lemma_tells_worker(worker: Worker, line: Seq<char>)
    requires
        shows_worker(worker, line),
    ensures
        tells_worker(worker, line),
{
    let cells = spec_worker_cells(worker);
    let (key, addr, status) = choose|key: Seq<char>, addr: Seq<char>, status: Seq<char>|
        {
            &&& #[trigger] shown(cells.key, worker.key@, green(), key)
            &&& #[trigger] shown(cells.addr, worker.addr@, yellow(), addr)
            &&& #[trigger] shown(
                cells.status,
                worker_status_text(worker.status),
                worker_status_style(worker.status),
                status,
            )
            &&& line == spec_worker_row(key, addr, status)
        };
    lemma_printed_text(cells.key, key);
    lemma_printed_text(cells.addr, addr);
    lemma_printed_text(cells.status, status);
    lemma_padded(key + " ("@ + addr + ")"@, 40);
    assert(is_printed(green_text(worker.key@), printed_text(cells.key, key)));
    assert(is_printed(yellow_text(worker.addr@), printed_text(cells.addr, addr)));
    assert(is_printed(told_status(worker), printed_text(cells.status, status)));
}

proof fn lemma_tells_package(package: PkgRelease, label: Seq<char>, line: Seq<char>)
    requires
        shows_package(package, label, line),
    ensures
        tells_package(package, label, line),
{
    let cells = spec_package_cells(package, label);
    let (status, name, version) = choose|status: Seq<char>, name: Seq<char>, version: Seq<char>|
        {
            &&& #[trigger] shown(cells.status, "["@ + label + "]"@, bold(), status)
            &&& #[trigger] shown(cells.name, package.name@, bold(), name)
            &&& #[trigger] shown(cells.version, package.version@, bold(), version)
            &&& line == spec_package_row(
                status,
                name,
                version,
                package.distro@,
                package.suite@,
                package.architecture@,
                debug_form(package.url@),
            )
        };
    lemma_printed_text(cells.status, status);
    lemma_printed_text(cells.name, name);
    lemma_printed_text(cells.version, version);
    lemma_padded(name + " "@ + version, 60);
    assert(is_printed(bold_text("["@ + label + "]"@), printed_text(cells.status, status)));
    assert(is_printed(bold_text(package.name@), printed_text(cells.name, name)));
    assert(is_printed(bold_text(package.version@), printed_text(cells.version, version)));
}

proof fn lemma_tells_queue_item(item: QueueItem, running: Seq<char>, line: Seq<char>)
    requires
        shows_queue_item(item, running, line),
    ensures
        tells_queue_item(item, running, line),
{
    let cells = spec_queue_cells(item, running);
    let text = running_text(item, running);
    let (queued, name, running_cell) = choose|
        queued: Seq<char>,
        name: Seq<char>,
        running_cell: Seq<char>,
    |
        {
            &&& #[trigger] shown(
                cells.queued,
                item.queued_at.spec_text(),
                bright_black(),
                queued,
            )
            &&& #[trigger] shown(cells.name, item.package.name@, bold(), name)
            &&& #[trigger] shown(cells.running, left_aligned(text, 11), green(), running_cell)
            &&& line == spec_queue_row(
                queued,
                name,
                item.package.version@,
                running_cell,
                started_text(item),
                debug_form(item.package.distro@),
                debug_form(item.package.suite@),
                debug_form(item.package.architecture@),
            )
        };
    lemma_printed_text(cells.queued, queued);
    lemma_printed_text(cells.name, name);
    lemma_printed_text(cells.running, running_cell);
    lemma_padded(name + " "@ + item.package.version@, 60);
    lemma_padded(text, 11);
    lemma_padded(started_text(item), 19);
    assert(padded(Seq::empty(), 11) =~= Seq::new(11, |i: int| ' '));
    assert(padded(Seq::empty(), 19) =~= Seq::new(19, |i: int| ' '));
    assert(is_printed(
        bright_black_text(time_text(item.queued_at)),
        printed_text(cells.queued, queued),
    ));
    assert(is_printed(bold_text(item.package.name@), printed_text(cells.name, name)));
    assert(is_printed(told_running(item, running), printed_text(cells.running, running_cell)));
}

} // verus!
