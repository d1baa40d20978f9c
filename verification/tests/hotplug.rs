use lemnos_linux::backend::InterfaceKind;
use lemnos_linux::hotplug::{
    is_reportable, static_watch_roots, DirEntryFacts, WatchEvent, WatchRegistration, WatchTable,
};
use lemnos_linux::LinuxPaths;

fn test_paths() -> LinuxPaths {
    LinuxPaths::new()
        .with_sys_class_root("/t/sys/class")
        .with_sys_bus_root("/t/sys/bus")
        .with_dev_root("/t/dev")
}

/// Registers every static root as the kernel would number them (from 1).
fn watch_static_roots(paths: &LinuxPaths) -> WatchTable {
    let mut table = WatchTable::new();
    for (index, (path, interface)) in static_watch_roots(paths).into_iter().enumerate() {
        assert!(table.should_watch(&path, true));
        table.register(WatchRegistration {
            wd: index as i32 + 1,
            path,
            interfaces: vec![interface],
            dynamic: false,
        });
    }
    table
}

#[test]
fn linux_hotplug_watcher_reports_gpio_root_changes() {
    let paths = test_paths();
    let mut table = watch_static_roots(&paths);
    let quiet = table.summarize_events(&[]);
    assert!(!is_reportable(&quiet));

    let gpio_wd = table.watch_of(&paths.gpio_class_root()).expect("gpio root watched");
    let summary = table.summarize_events(&[WatchEvent {
        wd: gpio_wd,
        overflow: false,
        ignored: false,
        name: Some("gpiochip7".into()),
    }]);
    assert!(is_reportable(&summary));
    assert!(summary.interfaces.contains(&InterfaceKind::Gpio));
    assert!(summary.paths.iter().any(|path| path.contains("gpiochip7")));
}

#[test]
fn linux_hotplug_watcher_reports_pwm_chip_child_changes() {
    let paths = test_paths();
    let mut table = watch_static_roots(&paths);
    let listing = vec![DirEntryFacts {
        name: "pwmchip2".into(),
        path: "/t/sys/class/pwm/pwmchip2".into(),
        is_dir: true,
    }];
    let (stale, add) = table.plan_pwm_sync(&listing);
    assert!(stale.is_empty());
    assert_eq!(add, vec!["/t/sys/class/pwm/pwmchip2".to_string()]);
    for path in add {
        assert!(table.should_watch(&path, true));
        table.register(WatchRegistration { wd: 10, path, interfaces: vec![InterfaceKind::Pwm], dynamic: true });
    }

    let summary = table.summarize_events(&[WatchEvent { wd: 10, overflow: false, ignored: false, name: Some("pwm1".into()) }]);
    assert!(is_reportable(&summary));
    assert!(summary.interfaces.contains(&InterfaceKind::Pwm));
    assert!(summary.paths.iter().any(|path| path.contains("pwm1")));
    assert!(summary.needs_pwm_resync);
}

#[test]
fn removed_pwm_chips_lose_their_watch_and_overflow_touches_everything() {
    let paths = test_paths();
    let mut table = watch_static_roots(&paths);
    table.register(WatchRegistration {
        wd: 10,
        path: "/t/sys/class/pwm/pwmchip2".into(),
        interfaces: vec![InterfaceKind::Pwm],
        dynamic: true,
    });
    let (stale, add) = table.plan_pwm_sync(&[]);
    assert_eq!(stale, vec!["/t/sys/class/pwm/pwmchip2".to_string()]);
    assert!(add.is_empty());
    assert_eq!(table.unregister("/t/sys/class/pwm/pwmchip2"), Some(10));
    assert_eq!(table.unregister("/t/sys/class/pwm/pwmchip2"), None);
    assert!(table.registration(10).is_none());

    let summary = table.summarize_events(&[
        WatchEvent { wd: 99, overflow: false, ignored: false, name: None },
        WatchEvent { wd: -1, overflow: true, ignored: false, name: None },
    ]);
    assert_eq!(
        summary.interfaces,
        vec![
            InterfaceKind::Gpio,
            InterfaceKind::Pwm,
            InterfaceKind::I2c,
            InterfaceKind::Spi,
            InterfaceKind::Uart,
            InterfaceKind::Usb
        ]
    );
    assert!(summary.paths.is_empty());
}

#[test]
fn ended_watches_are_forgotten_and_paths_reported_once() {
    let paths = test_paths();
    let mut table = watch_static_roots(&paths);
    let tty = table.watch_of(&paths.tty_class_root()).expect("tty watched");
    let summary = table.summarize_events(&[
        WatchEvent { wd: tty, overflow: false, ignored: false, name: Some("ttyUSB0".into()) },
        WatchEvent { wd: tty, overflow: false, ignored: false, name: Some("ttyUSB0".into()) },
        WatchEvent { wd: tty, overflow: false, ignored: true, name: None },
        WatchEvent { wd: tty, overflow: false, ignored: false, name: Some("ttyUSB1".into()) },
    ]);
    assert_eq!(summary.interfaces, vec![InterfaceKind::Uart]);
    assert_eq!(
        summary.paths,
        vec!["/t/sys/class/tty/ttyUSB0".to_string(), "/t/sys/class/tty".to_string()]
    );
    assert!(!summary.needs_pwm_resync);
    assert_eq!(table.watch_of(&paths.tty_class_root()), None);
}
