use radio_control::hw::Band;
use radio_control::station::{Station, StationDirectory, StationKind};

#[test]
fn resolve_returns_exact_configured_fm_entry() {
    let dir = StationDirectory::defaults();
    let st = dir.resolve("NRJ").expect("NRJ is configured");
    assert_eq!(st.name, "NRJ");
    match &st.kind {
        StationKind::Fm { freq_dmhz } => assert_eq!(*freq_dmhz, 1003),
        StationKind::Web { .. } => panic!("NRJ is an FM station"),
    }
}

#[test]
fn resolve_returns_exact_configured_web_entry() {
    let dir = StationDirectory::defaults();
    let st = dir.resolve("FIP Pop").expect("FIP Pop is configured");
    match &st.kind {
        StationKind::Web { url } => {
            assert_eq!(url, "http://icecast.radiofrance.fr/fippop-midfi.mp3")
        }
        StationKind::Fm { .. } => panic!("FIP Pop is a webradio"),
    }
}

#[test]
fn resolve_is_idempotent() {
    let dir = StationDirectory::defaults();
    for _ in 0..3 {
        let st = dir.resolve("France Inter").expect("France Inter is configured");
        match &st.kind {
            StationKind::Fm { freq_dmhz } => assert_eq!(*freq_dmhz, 878),
            StationKind::Web { .. } => panic!("France Inter is an FM station"),
        }
    }
}

#[test]
fn resolve_is_case_sensitive_and_exact() {
    let dir = StationDirectory::defaults();
    assert!(dir.resolve("nrj").is_none());
    assert!(dir.resolve("NRJ ").is_none());
    assert!(dir.resolve("Unknown").is_none());
    assert!(dir.resolve("").is_none());
}

#[test]
fn directory_rejects_duplicate_names() {
    let stations = vec![
        Station {
            name: "A".to_string(),
            kind: StationKind::Fm { freq_dmhz: 900 },
        },
        Station {
            name: "A".to_string(),
            kind: StationKind::Fm { freq_dmhz: 901 },
        },
    ];
    assert!(StationDirectory::new(stations).is_none());
}

#[test]
fn directory_rejects_out_of_band_frequency() {
    let low = vec![Station {
        name: "Low".to_string(),
        kind: StationKind::Fm { freq_dmhz: 874 },
    }];
    assert!(StationDirectory::new(low).is_none());
    let high = vec![Station {
        name: "High".to_string(),
        kind: StationKind::Fm { freq_dmhz: 1081 },
    }];
    assert!(StationDirectory::new(high).is_none());
}

#[test]
fn directory_accepts_valid_table() {
    let stations = vec![
        Station {
            name: "A".to_string(),
            kind: StationKind::Fm { freq_dmhz: 875 },
        },
        Station {
            name: "B".to_string(),
            kind: StationKind::Fm { freq_dmhz: 1080 },
        },
        Station {
            name: "C".to_string(),
            kind: StationKind::Web {
                url: "http://example.invalid/stream".to_string(),
            },
        },
    ];
    let dir = StationDirectory::new(stations).expect("table is valid");
    assert_eq!(dir.len(), 3);
    let st = dir.resolve("B").expect("B is configured");
    match &st.kind {
        StationKind::Fm { freq_dmhz } => assert_eq!(*freq_dmhz, 1080),
        StationKind::Web { .. } => panic!("B is an FM station"),
    }
}

#[test]
fn band_limits_are_inclusive() {
    let band = Band::europe_us();
    assert!(band.contains(875));
    assert!(band.contains(1080));
    assert!(!band.contains(874));
    assert!(!band.contains(1081));
}
