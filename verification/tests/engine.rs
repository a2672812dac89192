use systat::cadence::Cadence;
use systat::scheduler::Scheduler;
use systat::signal::Signal;
use systat::stat::Stat;
use systat::watcher::Watcher;

fn no_texts(n: usize) -> Vec<Option<String>> {
    let mut v = Vec::new();
    for _ in 0..n {
        v.push(None);
    }
    v
}

#[test]
fn stat_caches_latest_text() {
    let mut stat = Stat::new(Cadence::Static);
    assert_eq!(stat.current_text().as_str(), "");
    stat.f(String::from("(MNT:10G)"));
    assert_eq!(stat.current_text().as_str(), "(MNT:10G)");
    stat.f(String::from("(MNT:9G)"));
    assert_eq!(stat.current_text().as_str(), "(MNT:9G)");
    assert_eq!(stat.cadence, Cadence::Static);
}

#[test]
fn periodic_refreshes_at_multiples() {
    let mut sched = Scheduler::new(vec![Cadence::Periodic(3)]);
    let mut refreshed_at = Vec::new();
    for tick in 0u16..10 {
        assert_eq!(sched.tick, tick);
        let plan = sched.plan(None);
        if plan[0] {
            refreshed_at.push(tick);
            sched.run_tick(vec![Some(format!("t{}", tick))]);
        } else {
            sched.run_tick(no_texts(1));
        }
    }
    assert_eq!(refreshed_at, vec![0, 3, 6, 9]);
    assert_eq!(sched.stats[0].text, "t9");
}

#[test]
fn periodic_one_fires_every_tick() {
    let mut sched = Scheduler::new(vec![Cadence::Periodic(1)]);
    for _ in 0..5 {
        let plan = sched.plan(None);
        assert!(plan[0]);
        sched.run_tick(no_texts(1));
    }
}

#[test]
fn static_probed_only_at_startup() {
    let mut sched = Scheduler::new(vec![Cadence::Static]);
    let startup = sched.startup_plan();
    assert_eq!(startup, vec![true]);
    sched.store(vec![Some(String::from("B"))]);
    for _ in 0..10 {
        let plan = sched.plan(None);
        assert_eq!(plan, vec![false]);
        sched.run_tick(no_texts(1));
    }
    assert_eq!(sched.stats[0].text, "B");
}

#[test]
fn startup_plan_marks_exactly_the_static_stats() {
    let sched = Scheduler::new(vec![
        Cadence::Periodic(2),
        Cadence::Static,
        Cadence::Manual(1),
        Cadence::Static,
    ]);
    assert_eq!(sched.startup_plan(), vec![false, true, false, true]);
}

#[test]
fn manual_refreshes_iff_signalled() {
    let mut chan = Signal::new();
    let mut sched = Scheduler::new(vec![Cadence::Manual(2)]);

    chan.write(2);
    let sig = chan.take();
    assert_eq!(sig, Some(2));
    let plan = sched.plan(sig);
    assert_eq!(plan, vec![true]);
    sched.run_tick(vec![Some(String::from("C"))]);

    // After being read the channel is empty until the next write.
    let sig = chan.take();
    assert_eq!(sig, None);
    let plan = sched.plan(sig);
    assert_eq!(plan, vec![false]);
}

#[test]
fn manual_ignores_other_categories() {
    let sched = Scheduler::new(vec![Cadence::Manual(2)]);
    assert_eq!(sched.plan(Some(1)), vec![false]);
    assert_eq!(sched.plan(Some(3)), vec![false]);
    assert_eq!(sched.plan(None), vec![false]);
}

#[test]
fn take_on_empty_channel_is_none() {
    let mut chan = Signal::new();
    assert_eq!(chan.take(), None);
    assert_eq!(chan.take(), None);
}

#[test]
fn signal_coalescing_keeps_latest() {
    let mut chan = Signal::new();
    let mut sched = Scheduler::new(vec![Cadence::Manual(1), Cadence::Manual(2)]);

    // Both writes land strictly between two consecutive reads.
    chan.write(1);
    chan.write(2);
    let sig = chan.take();
    assert_eq!(sig, Some(2));

    let plan = sched.plan(sig);
    assert_eq!(plan, vec![false, true]);
    sched.run_tick(vec![None, Some(String::from("two"))]);
    assert_eq!(sched.stats[0].text, "");
    assert_eq!(sched.stats[1].text, "two");
}

#[test]
fn render_concatenates_in_declared_order() {
    let mut sched = Scheduler::new(vec![
        Cadence::Static,
        Cadence::Static,
        Cadence::Static,
        Cadence::Static,
    ]);
    sched.store(vec![
        Some(String::from("(MNT:10G)")),
        Some(String::from(" ")),
        Some(String::from("<42")),
        Some(String::from(":5%>")),
    ]);
    assert_eq!(sched.render(), "(MNT:10G) <42:5%>");
}

#[test]
fn render_of_no_stats_is_empty() {
    let sched = Scheduler::new(Vec::new());
    assert_eq!(sched.render(), "");
}

#[test]
fn store_none_keeps_the_cached_text() {
    let mut sched = Scheduler::new(vec![Cadence::Periodic(1), Cadence::Periodic(1)]);
    sched.store(vec![Some(String::from("a")), Some(String::from("b"))]);
    sched.store(vec![None, Some(String::from("B"))]);
    assert_eq!(sched.stats[0].text, "a");
    assert_eq!(sched.stats[1].text, "B");
}

#[test]
fn tick_wraps_to_zero_at_the_top() {
    let mut sched = Scheduler::new(vec![Cadence::Periodic(2)]);
    sched.tick = u16::MAX;
    // 65535 is odd, so the stat does not refresh on the last tick...
    assert_eq!(sched.plan(None), vec![false]);
    sched.run_tick(no_texts(1));
    // ...the counter wraps to zero instead of overflowing...
    assert_eq!(sched.tick, 0);
    // ...and `tick % n == 0` holds again right after the wrap.
    assert_eq!(sched.plan(None), vec![true]);
}

#[test]
fn advance_wraps_and_counts() {
    let mut sched = Scheduler::new(Vec::new());
    sched.tick = u16::MAX - 1;
    sched.advance();
    assert_eq!(sched.tick, u16::MAX);
    sched.advance();
    assert_eq!(sched.tick, 0);
    sched.advance();
    assert_eq!(sched.tick, 1);
}

#[test]
fn watcher_posts_once_per_exit() {
    let mut watcher = Watcher::new(3);
    let mut chan = Signal::new();
    let mut posts = 0u32;
    for _ in 0..5 {
        // The helper process of category 3 exited; the watcher posts its
        // category and the supervising loop relaunches the helper.
        watcher.on_exit(&mut chan);
        // Counting sink: record what the channel received.
        assert_eq!(chan.take(), Some(3));
        posts += 1;
    }
    assert_eq!(watcher.exits, 5);
    assert_eq!(posts, 5);
    assert_eq!(watcher.category, 3);
}

#[test]
fn watcher_overwrites_pending_category() {
    let mut watcher = Watcher::new(2);
    let mut chan = Signal::new();
    chan.write(7);
    watcher.on_exit(&mut chan);
    assert_eq!(chan.take(), Some(2));
}

#[test]
fn cadence_validity() {
    assert!(Cadence::Static.is_valid());
    assert!(Cadence::Periodic(1).is_valid());
    assert!(Cadence::Manual(1).is_valid());
    assert!(!Cadence::Periodic(0).is_valid());
    assert!(!Cadence::Manual(0).is_valid());
}

#[test]
fn end_to_end_scenario() {
    // Stats: Periodic(2) "A", Static "B", Manual(1) "C".
    let mut chan = Signal::new();
    let mut sched = Scheduler::new(vec![
        Cadence::Periodic(2),
        Cadence::Static,
        Cadence::Manual(1),
    ]);

    // Startup pass: only the static stat runs.
    assert_eq!(sched.startup_plan(), vec![false, true, false]);
    sched.store(vec![None, Some(String::from("B")), None]);

    // A manual request for category 1 arrives before the first tick.
    chan.write(1);

    // Tick 0: the periodic stat (0 % 2 == 0) and the signalled manual stat.
    let sig = chan.take();
    let plan = sched.plan(sig);
    assert_eq!(plan, vec![true, false, true]);
    let line = sched.run_tick(vec![Some(String::from("A")), None, Some(String::from("C"))]);
    assert_eq!(line, "ABC");

    // Tick 1: nothing is pending and 1 % 2 != 0, so nothing refreshes.
    let sig = chan.take();
    let plan = sched.plan(sig);
    assert_eq!(plan, vec![false, false, false]);
    let line = sched.run_tick(no_texts(3));
    assert_eq!(line, "ABC");

    // Tick 2: the periodic stat runs again, the static one never does, and
    // the manual one stays quiet without a signal.
    let sig = chan.take();
    let plan = sched.plan(sig);
    assert_eq!(plan, vec![true, false, false]);
    let line = sched.run_tick(vec![Some(String::from("A2")), None, None]);
    assert_eq!(line, "A2BC");
}
