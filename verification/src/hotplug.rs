//! The decisions of the hotplug watcher: which sysfs directories are
//! watched and for which interfaces, which PWM chip watches to drop and to
//! add, and what a batch of directory events amounts to. The watcher's
//! loop performs the inotify calls these decisions ask for.
use crate::backend::{all_interfaces, InterfaceKind};
use crate::paths::{join_chars, path_join, spec_gpio_class_root, spec_pwm_class_root, LinuxPaths};
use crate::text::{chars_of, starts_with, str_eq, string_from_chars, strip_prefix};
use vstd::prelude::*;

verus! {

/// What a watch was registered for.
#[derive(Debug, Clone, PartialEq, Eq)]
pub struct WatchRegistration {
    /// The kernel's number for the watch.
    pub wd: i32,
    pub path: String,
    pub interfaces: Vec<InterfaceKind>,
    /// Whether the watch follows a directory that comes and goes (a PWM
    /// chip) rather than a fixed root.
    pub dynamic: bool,
}

pub struct RegistrationView {
    pub wd: i32,
    pub path: Seq<char>,
    pub interfaces: Seq<InterfaceKind>,
    pub dynamic: bool,
}

impl View for WatchRegistration {
    type V = RegistrationView;

    open spec fn view(&self) -> RegistrationView {
        RegistrationView { wd: self.wd, path: self.path@, interfaces: self.interfaces@, dynamic: self.dynamic }
    }
}

/// The registrations, with the watch each path is under.
pub struct WatchTableView {
    pub registrations: Seq<RegistrationView>,
    pub watched: Seq<(Seq<char>, i32)>,
}

/// The registration of watch `wd`.
pub open spec fn find_registration(regs: Seq<RegistrationView>, wd: i32) -> Option<RegistrationView>
    decreases regs.len(),
{
    if regs.len() == 0 {
        None
    } else if regs.last().wd == wd {
        Some(regs.last())
    } else {
        find_registration(regs.drop_last(), wd)
    }
}

/// The watch `path` is under.
pub open spec fn find_watched(watched: Seq<(Seq<char>, i32)>, path: Seq<char>) -> Option<i32>
    decreases watched.len(),
{
    if watched.len() == 0 {
        None
    } else if watched.last().0 == path {
        Some(watched.last().1)
    } else {
        find_watched(watched.drop_last(), path)
    }
}

/// The registrations without those of watch `wd`.
pub open spec fn regs_without(regs: Seq<RegistrationView>, wd: i32) -> Seq<RegistrationView>
    decreases regs.len(),
{
    if regs.len() == 0 {
        regs
    } else {
        let rest = regs_without(regs.drop_last(), wd);
        if regs.last().wd == wd {
            rest
        } else {
            rest.push(regs.last())
        }
    }
}

/// The watched paths without `path`.
pub open spec fn watched_without(watched: Seq<(Seq<char>, i32)>, path: Seq<char>) -> Seq<(Seq<char>, i32)>
    decreases watched.len(),
{
    if watched.len() == 0 {
        watched
    } else {
        let rest = watched_without(watched.drop_last(), path);
        if watched.last().0 == path {
            rest
        } else {
            rest.push(watched.last())
        }
    }
}

/// The table after a watch was added for `path` (replacing any earlier
/// registration under the same watch number).
pub open spec fn spec_register(t: WatchTableView, r: RegistrationView) -> WatchTableView {
    WatchTableView {
        registrations: regs_without(t.registrations, r.wd).push(r),
        watched: watched_without(t.watched, r.path).push((r.path, r.wd)),
    }
}

/// The table after the watch of `path` was dropped, and the watch number
/// to remove from the kernel, where `path` was watched.
pub open spec fn spec_unregister(t: WatchTableView, path: Seq<char>) -> (WatchTableView, Option<i32>) {
    match find_watched(t.watched, path) {
        None => (t, None),
        Some(wd) => (
            WatchTableView { registrations: regs_without(t.registrations, wd), watched: watched_without(t.watched, path) },
            Some(wd),
        ),
    }
}

/// The watcher's table of watches.
pub struct WatchTable {
    registrations: Vec<WatchRegistration>,
    watched: Vec<(String, i32)>,
}

spec fn watched_view(v: Seq<(String, i32)>) -> Seq<(Seq<char>, i32)> {
    v.map_values(|p: (String, i32)| (p.0@, p.1))
}

spec fn regs_view(v: Seq<WatchRegistration>) -> Seq<RegistrationView> {
    v.map_values(|r: WatchRegistration| r@)
}

impl View for WatchTable {
    type V = WatchTableView;

    closed spec fn view(&self) -> WatchTableView {
        WatchTableView { registrations: regs_view(self.registrations@), watched: watched_view(self.watched@) }
    }
}

fn clone_interfaces(v: &Vec<InterfaceKind>) -> (r: Vec<InterfaceKind>)
    ensures
        r@ == v@,
{
    let mut r: Vec<InterfaceKind> = Vec::new();
    let mut i: usize = 0;
    while i < v.len()
        invariant
            i <= v@.len(),
            r@ == v@.take(i as int),
        decreases v.len() - i,
    {
        r.push(v[i]);
        i = i + 1;
        assert(r@ =~= v@.take(i as int));
    }
    assert(v@.take(v@.len() as int) =~= v@);
    r
}

fn clone_registration(r: &WatchRegistration) -> (c: WatchRegistration)
    ensures
        c@ == r@,
{
    WatchRegistration { wd: r.wd, path: r.path.clone(), interfaces: clone_interfaces(&r.interfaces), dynamic: r.dynamic }
}

impl WatchTable {
    /// No watches.
    pub fn new() -> (r: Self)
        ensures
            r@.registrations == Seq::<RegistrationView>::empty(),
            r@.watched == Seq::<(Seq<char>, i32)>::empty(),
    {
        let r = WatchTable { registrations: Vec::new(), watched: Vec::new() };
        assert(r@.registrations =~= Seq::<RegistrationView>::empty());
        assert(r@.watched =~= Seq::<(Seq<char>, i32)>::empty());
        r
    }

    /// The watch `path` is under.
    pub fn watch_of(&self, path: &str) -> (r: Option<i32>)
        ensures
            r == find_watched(self@.watched, path@),
    {
        let ghost s = self@.watched;
        let mut i: usize = self.watched.len();
        assert(s.take(s.len() as int) =~= s);
        while i > 0
            invariant
                i <= self.watched@.len(),
                s == watched_view(self.watched@),
                find_watched(s, path@) == find_watched(s.take(i as int), path@),
            decreases i,
        {
            i = i - 1;
            let ghost t = s.take(i as int + 1);
            assert(t.drop_last() =~= s.take(i as int));
            assert(t.last() == s[i as int]);
            if str_eq(self.watched[i].0.as_str(), path) {
                return Some(self.watched[i].1);
            }
        }
        None
    }

    /// Whether a watch is to be added for `path`: it is not watched yet,
    /// and it exists.
    pub fn should_watch(&self, path: &str, exists: bool) -> (r: bool)
        ensures
            r == (find_watched(self@.watched, path@) is None && exists),
    {
        exists && self.watch_of(path).is_none()
    }

    /// The registration of watch `wd`.
    pub fn registration(&self, wd: i32) -> (r: Option<WatchRegistration>)
        ensures
            match r {
                Some(reg) => find_registration(self@.registrations, wd) == Some(reg@),
                None => find_registration(self@.registrations, wd) is None,
            },
    {
        let ghost s = self@.registrations;
        let mut i: usize = self.registrations.len();
        assert(s.take(s.len() as int) =~= s);
        while i > 0
            invariant
                i <= self.registrations@.len(),
                s == regs_view(self.registrations@),
                find_registration(s, wd) == find_registration(s.take(i as int), wd),
            decreases i,
        {
            i = i - 1;
            let ghost t = s.take(i as int + 1);
            assert(t.drop_last() =~= s.take(i as int));
            assert(t.last() == s[i as int]);
            if self.registrations[i].wd == wd {
                return Some(clone_registration(&self.registrations[i]));
            }
        }
        None
    }

    fn drop_watch_number(&mut self, wd: i32)
        ensures
            final(self)@ == (WatchTableView { registrations: regs_without(old(self)@.registrations, wd), ..old(self)@ }),
    {
        let ghost s = self@.registrations;
        let mut kept: Vec<WatchRegistration> = Vec::new();
        let mut i: usize = 0;
        assert(s.take(0) =~= Seq::<RegistrationView>::empty());
        while i < self.registrations.len()
            invariant
                i <= self.registrations@.len(),
                s == regs_view(self.registrations@),
                regs_view(kept@) == regs_without(s.take(i as int), wd),
            decreases self.registrations.len() - i,
        {
            let ghost t = s.take(i as int + 1);
            assert(t.drop_last() =~= s.take(i as int));
            assert(t.last() == s[i as int]);
            let ghost before = kept@;
            if self.registrations[i].wd != wd {
                kept.push(clone_registration(&self.registrations[i]));
                assert(regs_view(kept@) =~= regs_view(before).push(s[i as int]));
            }
            i = i + 1;
        }
        assert(s.take(s.len() as int) =~= s);
        self.registrations = kept;
    }

    fn drop_path(&mut self, path: &str)
        ensures
            final(self)@ == (WatchTableView { watched: watched_without(old(self)@.watched, path@), ..old(self)@ }),
    {
        let ghost s = self@.watched;
        let mut kept: Vec<(String, i32)> = Vec::new();
        let mut i: usize = 0;
        assert(s.take(0) =~= Seq::<(Seq<char>, i32)>::empty());
        while i < self.watched.len()
            invariant
                i <= self.watched@.len(),
                s == watched_view(self.watched@),
                watched_view(kept@) == watched_without(s.take(i as int), path@),
            decreases self.watched.len() - i,
        {
            let ghost t = s.take(i as int + 1);
            assert(t.drop_last() =~= s.take(i as int));
            assert(t.last() == s[i as int]);
            let ghost before = kept@;
            if !str_eq(self.watched[i].0.as_str(), path) {
                kept.push((self.watched[i].0.clone(), self.watched[i].1));
                assert(watched_view(kept@) =~= watched_view(before).push(s[i as int]));
            }
            i = i + 1;
        }
        assert(s.take(s.len() as int) =~= s);
        self.watched = kept;
    }

    /// Records a watch the kernel granted.
    pub fn register(&mut self, r: WatchRegistration)
        ensures
            final(self)@ == spec_register(old(self)@, r@),
    {
        self.drop_watch_number(r.wd);
        self.drop_path(r.path.as_str());
        let ghost regs = self.registrations@;
        let ghost watched = self.watched@;
        self.watched.push((r.path.clone(), r.wd));
        assert(watched_view(self.watched@) =~= watched_view(watched).push((r.path@, r.wd)));
        self.registrations.push(r);
        assert(regs_view(self.registrations@) =~= regs_view(regs).push(r@));
    }

    /// Forgets the watch of `path`, and gives the watch number to remove
    /// from the kernel, where `path` was watched.
    pub fn unregister(&mut self, path: &str) -> (r: Option<i32>)
        ensures
            (final(self)@, r) == spec_unregister(old(self)@, path@),
    {
        match self.watch_of(path) {
            None => None,
            Some(wd) => {
                self.drop_watch_number(wd);
                self.drop_path(path);
                Some(wd)
            },
        }
    }
}

/// One entry of the PWM class directory.
pub struct DirEntryFacts {
    pub name: String,
    pub path: String,
    pub is_dir: bool,
}

/// The paths of the PWM chip directories among the entries, in order.
pub open spec fn current_chip_paths(entries: Seq<DirEntryFacts>) -> Seq<Seq<char>>
    decreases entries.len(),
{
    if entries.len() == 0 {
        Seq::empty()
    } else {
        let rest = current_chip_paths(entries.drop_last());
        let e = entries.last();
        if e.is_dir && strip_prefix(e.name@, "pwmchip"@) is Some {
            rest.push(e.path@)
        } else {
            rest
        }
    }
}

/// A watch that followed a PWM chip that is gone.
pub open spec fn is_stale_chip_watch(r: RegistrationView, current: Seq<Seq<char>>) -> bool {
    r.dynamic && r.interfaces == seq![InterfaceKind::Pwm] && !current.contains(r.path)
}

/// The paths of the stale chip watches, in the table's order.
pub open spec fn stale_chip_paths(regs: Seq<RegistrationView>, current: Seq<Seq<char>>) -> Seq<Seq<char>>
    decreases regs.len(),
{
    if regs.len() == 0 {
        Seq::empty()
    } else {
        let rest = stale_chip_paths(regs.drop_last(), current);
        if is_stale_chip_watch(regs.last(), current) {
            rest.push(regs.last().path)
        } else {
            rest
        }
    }
}

pub open spec fn strings_view(v: Seq<String>) -> Seq<Seq<char>> {
    v.map_values(|s: String| s@)
}

fn contains_string(v: &Vec<String>, s: &str) -> (r: bool)
    ensures
        r == strings_view(v@).contains(s@),
{
    let mut i: usize = 0;
    while i < v.len()
        invariant
            i <= v@.len(),
            forall|j: int| 0 <= j < i ==> v@[j]@ != s@,
        decreases v.len() - i,
    {
        if str_eq(v[i].as_str(), s) {
            assert(strings_view(v@)[i as int] == s@);
            return true;
        }
        i = i + 1;
    }
    assert(!strings_view(v@).contains(s@)) by {
        if strings_view(v@).contains(s@) {
            let j = choose|j: int| 0 <= j < strings_view(v@).len() && strings_view(v@)[j] == s@;
            assert(v@[j]@ == s@);
        }
    }
    false
}

fn is_only_pwm(v: &Vec<InterfaceKind>) -> (r: bool)
    ensures
        r == (v@ == seq![InterfaceKind::Pwm]),
{
    if v.len() == 1 && v[0] == InterfaceKind::Pwm {
        assert(v@ =~= seq![InterfaceKind::Pwm]);
        true
    } else {
        false
    }
}

impl WatchTable {
    /// How the PWM chip watches are brought up to date with the chip
    /// directories listed now: the stale chip watches to drop, and the chip
    /// directories to watch (each then added as `should_watch` says).
    pub fn plan_pwm_sync(&self, entries: &[DirEntryFacts]) -> (r: (Vec<String>, Vec<String>))
        ensures
            strings_view(r.1@) == current_chip_paths(entries@),
            strings_view(r.0@) == stale_chip_paths(self@.registrations, current_chip_paths(entries@)),
    {
        let mut current: Vec<String> = Vec::new();
        let mut i: usize = 0;
        assert(entries@.take(0) =~= Seq::<DirEntryFacts>::empty());
        assert(strings_view(current@) =~= Seq::<Seq<char>>::empty());
        while i < entries.len()
            invariant
                i <= entries@.len(),
                strings_view(current@) == current_chip_paths(entries@.take(i as int)),
            decreases entries.len() - i,
        {
            let ghost t = entries@.take(i as int + 1);
            assert(t.drop_last() =~= entries@.take(i as int));
            assert(t.last() == entries@[i as int]);
            let ghost before = current@;
            let e = &entries[i];
            if e.is_dir && starts_with(e.name.as_str(), "pwmchip") {
                current.push(e.path.clone());
                assert(strings_view(current@) =~= strings_view(before).push(e.path@));
            }
            i = i + 1;
        }
        assert(entries@.take(entries@.len() as int) =~= entries@);
        let ghost cur = strings_view(current@);
        let ghost regs = self@.registrations;
        let mut stale: Vec<String> = Vec::new();
        let mut k: usize = 0;
        assert(regs.take(0) =~= Seq::<RegistrationView>::empty());
        assert(strings_view(stale@) =~= Seq::<Seq<char>>::empty());
        while k < self.registrations.len()
            invariant
                k <= self.registrations@.len(),
                regs == regs_view(self.registrations@),
                cur == strings_view(current@),
                strings_view(stale@) == stale_chip_paths(regs.take(k as int), cur),
            decreases self.registrations.len() - k,
        {
            let ghost t = regs.take(k as int + 1);
            assert(t.drop_last() =~= regs.take(k as int));
            assert(t.last() == regs[k as int]);
            let ghost before = stale@;
            let r = &self.registrations[k];
            if r.dynamic && is_only_pwm(&r.interfaces) && !contains_string(&current, r.path.as_str()) {
                stale.push(r.path.clone());
                assert(strings_view(stale@) =~= strings_view(before).push(r.path@));
            }
            k = k + 1;
        }
        assert(regs.take(regs.len() as int) =~= regs);
        (stale, current)
    }
}

/// One directory event read from inotify.
pub struct WatchEvent {
    /// The watch the event came on.
    pub wd: i32,
    /// The kernel's queue overflowed: events were lost.
    pub overflow: bool,
    /// The watch is gone (its directory was removed or unmounted).
    pub ignored: bool,
    /// The name of the entry inside the watched directory, where the event
    /// concerns one.
    pub name: Option<String>,
}

/// The path an event concerns: the entry it names inside the watched
/// directory, or the directory itself.
pub open spec fn event_path(root: Seq<char>, name: Option<Seq<char>>) -> Seq<char> {
    match name {
        Some(n) => path_join(root, n),
        None => root,
    }
}

/// What a batch of events amounts to so far.
pub struct PollView {
    pub table: WatchTableView,
    pub interfaces: Set<InterfaceKind>,
    pub paths: Set<Seq<char>>,
    pub needs_pwm_resync: bool,
}

pub open spec fn opt_name(n: Option<String>) -> Option<Seq<char>> {
    match n {
        Some(s) => Some(s@),
        None => None,
    }
}

/// One event: an overflow touches every interface; an event on a known
/// watch touches its interfaces and its path (and asks for a PWM resync
/// where the watch serves PWM); an event that ends a watch also forgets
/// it; events on unknown watches are passed over.
pub open spec fn poll_step(p: PollView, e: WatchEvent) -> PollView {
    if e.overflow {
        PollView { interfaces: p.interfaces + all_interfaces().to_set(), ..p }
    } else {
        match find_registration(p.table.registrations, e.wd) {
            None => p,
            Some(r) => PollView {
                table: if e.ignored {
                    WatchTableView {
                        registrations: regs_without(p.table.registrations, e.wd),
                        watched: watched_without(p.table.watched, r.path),
                    }
                } else {
                    p.table
                },
                interfaces: p.interfaces + r.interfaces.to_set(),
                paths: p.paths.insert(event_path(r.path, opt_name(e.name))),
                needs_pwm_resync: p.needs_pwm_resync || r.interfaces.contains(InterfaceKind::Pwm),
            },
        }
    }
}

pub open spec fn poll_all(table: WatchTableView, events: Seq<WatchEvent>) -> PollView
    decreases events.len(),
{
    if events.len() == 0 {
        PollView { table, interfaces: Set::empty(), paths: Set::empty(), needs_pwm_resync: false }
    } else {
        poll_step(poll_all(table, events.drop_last()), events.last())
    }
}

/// The interfaces of a set, in the backend's order.
pub open spec fn ordered_interfaces(s: Set<InterfaceKind>) -> Seq<InterfaceKind> {
    (if s.contains(InterfaceKind::Gpio) { seq![InterfaceKind::Gpio] } else { Seq::empty() }) + (if s.contains(
        InterfaceKind::Pwm,
    ) {
        seq![InterfaceKind::Pwm]
    } else {
        Seq::empty()
    }) + (if s.contains(InterfaceKind::I2c) { seq![InterfaceKind::I2c] } else { Seq::empty() }) + (if s.contains(
        InterfaceKind::Spi,
    ) {
        seq![InterfaceKind::Spi]
    } else {
        Seq::empty()
    }) + (if s.contains(InterfaceKind::Uart) { seq![InterfaceKind::Uart] } else { Seq::empty() }) + (if s.contains(
        InterfaceKind::Usb,
    ) {
        seq![InterfaceKind::Usb]
    } else {
        Seq::empty()
    })
}

/// What a batch of events amounts to.
#[derive(Debug, Clone, PartialEq, Eq)]
pub struct PollSummary {
    /// The interfaces touched, in the backend's order.
    pub interfaces: Vec<InterfaceKind>,
    /// The paths touched, each once, in the order first met.
    pub paths: Vec<String>,
    pub needs_pwm_resync: bool,
}

fn contains_interface(v: &Vec<InterfaceKind>, i: InterfaceKind) -> (r: bool)
    ensures
        r == v@.contains(i),
{
    let mut k: usize = 0;
    while k < v.len()
        invariant
            k <= v@.len(),
            forall|j: int| 0 <= j < k ==> v@[j] != i,
        decreases v.len() - k,
    {
        if v[k] == i {
            return true;
        }
        k = k + 1;
    }
    false
}

fn add_interfaces(acc: &mut Vec<InterfaceKind>, more: &Vec<InterfaceKind>)
    ensures
        final(acc)@.to_set() == old(acc)@.to_set() + more@.to_set(),
{
    broadcast use vstd::seq_lib::lemma_seq_contains_after_push;

    let ghost start = acc@.to_set();
    let mut k: usize = 0;
    while k < more.len()
        invariant
            k <= more@.len(),
            acc@.to_set() == start + more@.take(k as int).to_set(),
        decreases more.len() - k,
    {
        let ghost before = acc@;
        let present = contains_interface(acc, more[k]);
        if !present {
            acc.push(more[k]);
        }
        assert forall|x: InterfaceKind| acc@.contains(x) <==> (before.contains(x) || x == more@[k as int]) by {
            if !present {
                assert(acc@ == before.push(more@[k as int]));
                vstd::seq_lib::lemma_seq_contains_after_push(before, more@[k as int], x);
            } else {
                assert(acc@ == before);
                assert(before.contains(more@[k as int]));
            }
        }
        proof {
            assert(more@.take(k as int + 1) =~= more@.take(k as int).push(more@[k as int]));
            assert(acc@.to_set() =~= before.to_set().insert(more@[k as int]));
            assert forall|x: InterfaceKind| more@.take(k as int + 1).contains(x) <==> (more@.take(k as int).contains(x) || x
                == more@[k as int]) by {
                assert(more@.take(k as int + 1) == more@.take(k as int).push(more@[k as int]));
                vstd::seq_lib::lemma_seq_contains_after_push(more@.take(k as int), more@[k as int], x);
            }
            more@.take(k as int).lemma_push_to_set_commute(more@[k as int]);
            assert(acc@.to_set() =~= start + more@.take(k as int + 1).to_set());
        }
        k = k + 1;
        assert(acc@.to_set() =~= start + more@.take(k as int).to_set());
    }
    assert(more@.take(more@.len() as int) =~= more@);
}

fn join_event_path(root: &String, name: &Option<String>) -> (r: String)
    ensures
        r@ == event_path(root@, opt_name(*name)),
{
    match name {
        Some(n) => {
            let v = join_chars(chars_of(root.as_str()).as_slice(), chars_of(n.as_str()).as_slice());
            string_from_chars(v.as_slice())
        },
        None => root.clone(),
    }
}

impl WatchTable {
    /// Goes through a batch of events: forgets the watches they end and
    /// reports what they touched.
    pub fn summarize_events(&mut self, events: &[WatchEvent]) -> (r: PollSummary)
        ensures
            final(self)@ == poll_all(old(self)@, events@).table,
            r.interfaces@ == ordered_interfaces(poll_all(old(self)@, events@).interfaces),
            strings_view(r.paths@).to_set() == poll_all(old(self)@, events@).paths,
            strings_view(r.paths@).no_duplicates(),
            r.needs_pwm_resync == poll_all(old(self)@, events@).needs_pwm_resync,
    {
        let ghost start = self@;
        let mut touched: Vec<InterfaceKind> = Vec::new();
        let mut paths: Vec<String> = Vec::new();
        let mut resync = false;
        let mut i: usize = 0;
        assert(events@.take(0) =~= Seq::<WatchEvent>::empty());
        assert(touched@.to_set() =~= Set::<InterfaceKind>::empty());
        assert(strings_view(paths@).to_set() =~= Set::<Seq<char>>::empty());
        while i < events.len()
            invariant
                i <= events@.len(),
                poll_all(start, events@.take(i as int)).table == self@,
                poll_all(start, events@.take(i as int)).interfaces == touched@.to_set(),
                poll_all(start, events@.take(i as int)).paths == strings_view(paths@).to_set(),
                strings_view(paths@).no_duplicates(),
                poll_all(start, events@.take(i as int)).needs_pwm_resync == resync,
            decreases events.len() - i,
        {
            let ghost t = events@.take(i as int + 1);
            assert(t.drop_last() =~= events@.take(i as int));
            assert(t.last() == events@[i as int]);
            let e = &events[i];
            if e.overflow {
                let all = vec![
                    InterfaceKind::Gpio,
                    InterfaceKind::Pwm,
                    InterfaceKind::I2c,
                    InterfaceKind::Spi,
                    InterfaceKind::Uart,
                    InterfaceKind::Usb,
                ];
                assert(all@ =~= all_interfaces());
                add_interfaces(&mut touched, &all);
            } else {
                match self.registration(e.wd) {
                    None => {},
                    Some(r) => {
                        add_interfaces(&mut touched, &r.interfaces);
                        let p = join_event_path(&r.path, &e.name);
                        let ghost before = paths@;
                        let ghost pv = p@;
                        let present = contains_string(&paths, p.as_str());
                        if !present {
                            paths.push(p);
                            proof {
                                assert(strings_view(paths@) =~= strings_view(before).push(pv));
                                assert forall|x: Seq<char>| strings_view(paths@).contains(x) <==> (strings_view(before).contains(x)
                                    || x == pv) by {
                                    broadcast use vstd::seq_lib::lemma_seq_contains_after_push;
                                }
                            }
                        }
                        assert(strings_view(paths@).to_set() =~= strings_view(before).to_set().insert(pv));
                        if contains_interface(&r.interfaces, InterfaceKind::Pwm) {
                            resync = true;
                        }
                        if e.ignored {
                            self.drop_watch_number(e.wd);
                            self.drop_path(r.path.as_str());
                        }
                    },
                }
            }
            i = i + 1;
        }
        assert(events@.take(events@.len() as int) =~= events@);
        let mut ordered: Vec<InterfaceKind> = Vec::new();
        let ghost set = touched@.to_set();
        if contains_interface(&touched, InterfaceKind::Gpio) {
            ordered.push(InterfaceKind::Gpio);
        }
        if contains_interface(&touched, InterfaceKind::Pwm) {
            ordered.push(InterfaceKind::Pwm);
        }
        if contains_interface(&touched, InterfaceKind::I2c) {
            ordered.push(InterfaceKind::I2c);
        }
        if contains_interface(&touched, InterfaceKind::Spi) {
            ordered.push(InterfaceKind::Spi);
        }
        if contains_interface(&touched, InterfaceKind::Uart) {
            ordered.push(InterfaceKind::Uart);
        }
        if contains_interface(&touched, InterfaceKind::Usb) {
            ordered.push(InterfaceKind::Usb);
        }
        assert(ordered@ =~= ordered_interfaces(set));
        PollSummary { interfaces: ordered, paths, needs_pwm_resync: resync }
    }
}

/// Whether a summary is worth reporting: it touched some interface or path.
pub fn is_reportable(s: &PollSummary) -> (r: bool)
    ensures
        r == (s.interfaces@.len() > 0 || s.paths@.len() > 0),
{
    s.interfaces.len() > 0 || s.paths.len() > 0
}

/// The fixed roots the watcher watches, each for its interface, in the
/// order it adds them.
pub open spec fn spec_static_roots(p: LinuxPaths) -> Seq<(Seq<char>, InterfaceKind)> {
    seq![
        (spec_gpio_class_root(p), InterfaceKind::Gpio),
        (path_join(p.sys_class_root@, "leds"@), InterfaceKind::Gpio),
        (spec_pwm_class_root(p), InterfaceKind::Pwm),
        (path_join(p.sys_class_root@, "hwmon"@), InterfaceKind::Pwm),
        (path_join(p.sys_class_root@, "i2c-dev"@), InterfaceKind::I2c),
        (path_join(path_join(p.sys_bus_root@, "i2c"@), "devices"@), InterfaceKind::I2c),
        (path_join(path_join(p.sys_bus_root@, "spi"@), "devices"@), InterfaceKind::Spi),
        (path_join(p.sys_class_root@, "tty"@), InterfaceKind::Uart),
        (path_join(path_join(p.sys_bus_root@, "usb"@), "devices"@), InterfaceKind::Usb),
    ]
}

/// The fixed roots to watch.
pub fn static_watch_roots(paths: &LinuxPaths) -> (r: Vec<(String, InterfaceKind)>)
    ensures
        r@.map_values(|e: (String, InterfaceKind)| (e.0@, e.1)) == spec_static_roots(*paths),
{
    let r = vec![
        (paths.gpio_class_root(), InterfaceKind::Gpio),
        (paths.led_class_root(), InterfaceKind::Gpio),
        (paths.pwm_class_root(), InterfaceKind::Pwm),
        (paths.hwmon_class_root(), InterfaceKind::Pwm),
        (paths.i2c_class_root(), InterfaceKind::I2c),
        (paths.i2c_devices_root(), InterfaceKind::I2c),
        (paths.spi_devices_root(), InterfaceKind::Spi),
        (paths.tty_class_root(), InterfaceKind::Uart),
        (paths.usb_devices_root(), InterfaceKind::Usb),
    ];
    assert(r@.map_values(|e: (String, InterfaceKind)| (e.0@, e.1)) =~= spec_static_roots(*paths));
    r
}

/// An event on a known watch is reported under the watch's interfaces and
/// the path it names; an event that ends a watch forgets it, so a later
/// event under the same number is passed over.
pub proof fn law_ended_watches_are_forgotten(t: WatchTableView, e: WatchEvent, later: WatchEvent)
    requires
        !e.overflow,
        e.ignored,
        find_registration(t.registrations, e.wd) is Some,
        !later.overflow,
        later.wd == e.wd,
    ensures
        poll_step(
            PollView { table: t, interfaces: Set::empty(), paths: Set::empty(), needs_pwm_resync: false },
            e,
        ).paths.contains(event_path(find_registration(t.registrations, e.wd)->0.path, opt_name(e.name))),
        find_registration(regs_without(t.registrations, e.wd), e.wd) is None,
        ({
            let p = poll_step(
                PollView { table: t, interfaces: Set::empty(), paths: Set::empty(), needs_pwm_resync: false },
                e,
            );
            poll_step(p, later) == p
        }),
{
    lemma_regs_without_forgets(t.registrations, e.wd);
}

proof fn lemma_regs_without_forgets(regs: Seq<RegistrationView>, wd: i32)
    ensures
        find_registration(regs_without(regs, wd), wd) is None,
    decreases regs.len(),
{
    if regs.len() > 0 {
        lemma_regs_without_forgets(regs.drop_last(), wd);
        let rest = regs_without(regs.drop_last(), wd);
        if regs.last().wd != wd {
            assert(rest.push(regs.last()).drop_last() =~= rest);
        }
    }
}

proof fn lemma_watched_without_forgets(watched: Seq<(Seq<char>, i32)>, path: Seq<char>)
    ensures
        find_watched(watched_without(watched, path), path) is None,
    decreases watched.len(),
{
    if watched.len() > 0 {
        lemma_watched_without_forgets(watched.drop_last(), path);
        let rest = watched_without(watched.drop_last(), path);
        if watched.last().0 != path {
            assert(rest.push(watched.last()).drop_last() =~= rest);
        }
    }
}

/// A registered watch is found both by its path and by its number; once
/// its path is unregistered, neither finds it, and the number handed back
/// for removal is the one it was registered under.
pub proof fn law_register_then_unregister(t: WatchTableView, r: RegistrationView)
    ensures
        find_watched(spec_register(t, r).watched, r.path) == Some(r.wd),
        find_registration(spec_register(t, r).registrations, r.wd) == Some(r),
        spec_unregister(spec_register(t, r), r.path).1 == Some(r.wd),
        find_watched(spec_unregister(spec_register(t, r), r.path).0.watched, r.path) is None,
        find_registration(spec_unregister(spec_register(t, r), r.path).0.registrations, r.wd) is None,
{
    let t2 = spec_register(t, r);
    assert(t2.watched.drop_last() =~= watched_without(t.watched, r.path));
    assert(t2.registrations.drop_last() =~= regs_without(t.registrations, r.wd));
    lemma_watched_without_forgets(t2.watched, r.path);
    lemma_regs_without_forgets(t2.registrations, r.wd);
}

} // verus!
