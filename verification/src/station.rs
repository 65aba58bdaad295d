//! Station directory: a fixed, case-sensitive table mapping station names to
//! either an FM frequency or a web-stream URL.

use vstd::prelude::*;
use crate::hw::europe_us_band;

verus! {

/// Mathematical model of a station's kind.
pub enum StationKindModel {
    Fm { freq_dmhz: u16 },
    Web { url: Seq<char> },
}

/// Mathematical model of a directory entry.
pub struct StationModel {
    pub name: Seq<char>,
    pub kind: StationKindModel,
}

/// What a station offers: an FM frequency (tenths of a MHz) or a stream URL.
pub enum StationKind {
    Fm { freq_dmhz: u16 },
    Web { url: String },
}

/// A named radio source. Immutable once the directory is built.
pub struct Station {
    pub name: String,
    pub kind: StationKind,
}

impl View for StationKind {
    type V = StationKindModel;

    open spec fn view(&self) -> StationKindModel {
        match self {
            StationKind::Fm { freq_dmhz } => StationKindModel::Fm { freq_dmhz: *freq_dmhz },
            StationKind::Web { url } => StationKindModel::Web { url: url@ },
        }
    }
}

impl View for Station {
    type V = StationModel;

    open spec fn view(&self) -> StationModel {
        StationModel { name: self.name@, kind: self.kind@ }
    }
}

/// An FM entry must lie in the valid receive band; a web entry is any URL.
pub open spec fn station_wf(m: StationModel) -> bool {
    match m.kind {
        StationKindModel::Fm { freq_dmhz } => europe_us_band().contains_dmhz(freq_dmhz),
        StationKindModel::Web { url: _ } => true,
    }
}

/// Directory names are unique: no two entries share a name.
pub open spec fn unique_names(dir: Seq<StationModel>) -> bool {
    forall|i: int, j: int|
        0 <= i < dir.len() && 0 <= j < dir.len() && i != j ==> dir[i].name != dir[j].name
}

/// A well-formed directory has unique names and only well-formed entries.
pub open spec fn directory_wf(dir: Seq<StationModel>) -> bool {
    unique_names(dir) && forall|i: int| 0 <= i < dir.len() ==> station_wf(#[trigger] dir[i])
}

pub open spec fn models_of(stations: Seq<Station>) -> Seq<StationModel> {
    stations.map_values(|st: Station| st@)
}

/// First entry of `dir` named `name`, if any. Since names are unique in a
/// well-formed directory, "first" is the only one.
pub open spec fn resolve_in(dir: Seq<StationModel>, name: Seq<char>) -> Option<StationModel>
    decreases dir.len(),
{
    if dir.len() == 0 {
        None
    } else if dir[0].name == name {
        Some(dir[0])
    } else {
        resolve_in(dir.skip(1), name)
    }
}

proof fn lemma_resolve_in_skip(dir: Seq<StationModel>, name: Seq<char>, i: int)
    requires
        0 <= i <= dir.len(),
        forall|j: int| 0 <= j < i ==> dir[j].name != name,
    ensures
        resolve_in(dir, name) == resolve_in(dir.skip(i), name),
    decreases i,
{
    if i > 0 {
        lemma_resolve_in_skip(dir, name, i - 1);
        assert(dir.skip(i - 1).len() > 0);
        assert(dir.skip(i - 1)[0] == dir[i - 1]);
        assert(dir.skip(i - 1).skip(1) =~= dir.skip(i));
    } else {
        assert(dir.skip(0) =~= dir);
    }
}

/// Law: in a directory with unique names, resolving the name of any
/// configured station returns exactly that station, with the kind and
/// frequency or URL it was configured with.
pub proof fn lemma_resolve_finds_each_station(dir: Seq<StationModel>, i: int)
    requires
        unique_names(dir),
        0 <= i < dir.len(),
    ensures
        resolve_in(dir, dir[i].name) == Some(dir[i]),
    decreases i,
{
    if i > 0 {
        assert(dir[0].name != dir[i].name);
        let rest = dir.skip(1);
        assert(forall|p: int| 0 <= p < rest.len() ==> rest[p] == dir[p + 1]);
        assert(unique_names(rest));
        lemma_resolve_finds_each_station(rest, i - 1);
        assert(rest[i - 1] == dir[i]);
    }
}

/// Law: resolution is a function of the directory and the name alone, so
/// repeated calls with the same arguments yield identical results.
pub proof fn lemma_resolve_idempotent(
    dir: Seq<StationModel>,
    name: Seq<char>,
    r1: Option<StationModel>,
    r2: Option<StationModel>,
)
    requires
        r1 == resolve_in(dir, name),
        r2 == resolve_in(dir, name),
    ensures
        r1 == r2,
{
}

/// The fixed name-to-station table. Populated once at startup, read-only
/// thereafter.
pub struct StationDirectory {
    stations: Vec<Station>,
}

impl View for StationDirectory {
    type V = Seq<StationModel>;

    closed spec fn view(&self) -> Seq<StationModel> {
        models_of(self.stations@)
    }
}

impl StationDirectory {
    /// Build a directory after validating it: every FM frequency must lie in
    /// the receive band and no two entries may share a name.
    pub fn new(stations: Vec<Station>) -> (r: Option<StationDirectory>)
        ensures
            match r {
                Some(d) => d@ == models_of(stations@) && directory_wf(d@),
                None => !directory_wf(models_of(stations@)),
            },
    {
        let band = crate::hw::Band::europe_us();
        let n = stations.len();
        let mut i: usize = 0;
        while i < n
            invariant
                n == stations.len(),
                0 <= i <= n,
                band == europe_us_band(),
                forall|k: int| 0 <= k < i ==> station_wf(#[trigger] models_of(stations@)[k]),
            decreases n - i,
        {
            match &stations[i].kind {
                StationKind::Fm { freq_dmhz } => {
                    if !band.contains(*freq_dmhz) {
                        proof {
                            assert(models_of(stations@)[i as int] == stations@[i as int]@);
                            assert(!station_wf(models_of(stations@)[i as int]));
                        }
                        return None;
                    }
                },
                StationKind::Web { url: _ } => {},
            }
            assert(station_wf(models_of(stations@)[i as int]));
            i += 1;
        }
        i = 0;
        while i < n
            invariant
                n == stations.len(),
                0 <= i <= n,
                forall|k: int| 0 <= k < n ==> station_wf(#[trigger] models_of(stations@)[k]),
                forall|p: int, q: int|
                    0 <= p < i && 0 <= q < n && p != q ==> models_of(stations@)[p].name
                        != models_of(stations@)[q].name,
            decreases n - i,
        {
            let mut j: usize = 0;
            while j < n
                invariant
                    n == stations.len(),
                    0 <= i < n,
                    0 <= j <= n,
                    forall|q: int|
                        0 <= q < j && q != i ==> models_of(stations@)[i as int].name
                            != models_of(stations@)[q].name,
                decreases n - j,
            {
                if j != i {
                    if stations[i].name == stations[j].name {
                        proof {
                            let ghost m = models_of(stations@);
                            assert(m[i as int].name == stations@[i as int]@.name);
                            assert(m[j as int].name == stations@[j as int]@.name);
                            assert(!unique_names(m));
                        }
                        return None;
                    }
                }
                j += 1;
            }
            i += 1;
        }
        Some(StationDirectory { stations })
    }

    /// Case-sensitive exact lookup. `None` means "not found" and must be
    /// treated as a user-facing condition, never a fatal error.
    pub fn resolve<'a>(&'a self, name: &str) -> (r: Option<&'a Station>)
        ensures
            match r {
                Some(st) => resolve_in(self@, name@) == Some(st@),
                None => resolve_in(self@, name@) is None,
            },
    {
        let key: String = name.to_owned();
        let n = self.stations.len();
        let mut i: usize = 0;
        while i < n
            invariant
                n == self.stations.len(),
                0 <= i <= n,
                key@ == name@,
                forall|j: int| 0 <= j < i ==> models_of(self.stations@)[j].name != name@,
            decreases n - i,
        {
            let st = &self.stations[i];
            if st.name == key {
                proof {
                    lemma_resolve_in_skip(self@, name@, i as int);
                    assert(self@.skip(i as int)[0] == self@[i as int]);
                }
                return Some(st);
            }
            i += 1;
        }
        proof {
            lemma_resolve_in_skip(self@, name@, n as int);
        }
        None
    }

    /// Number of entries in the table.
    pub fn len(&self) -> (n: usize)
        ensures
            n == self@.len(),
    {
        self.stations.len()
    }

    /// The compiled-in table this appliance ships with.
    pub fn defaults() -> (d: StationDirectory)
        ensures
            d@ == default_stations(),
            directory_wf(d@),
    {
        let mut v: Vec<Station> = Vec::new();
        v.push(
            Station { name: "NRJ".to_owned(), kind: StationKind::Fm { freq_dmhz: 1003 } },
        );
        v.push(
            Station {
                name: "France Inter".to_owned(),
                kind: StationKind::Fm { freq_dmhz: 878 },
            },
        );
        v.push(
            Station { name: "FIP".to_owned(), kind: StationKind::Fm { freq_dmhz: 1051 } },
        );
        v.push(
            Station {
                name: "FIP Pop".to_owned(),
                kind: StationKind::Web {
                    url: "http://icecast.radiofrance.fr/fippop-midfi.mp3".to_owned(),
                },
            },
        );
        proof {
            reveal_strlit("NRJ");
            reveal_strlit("France Inter");
            reveal_strlit("FIP");
            reveal_strlit("FIP Pop");
            assert(models_of(v@) =~= default_stations());
            let ghost d = default_stations();
            assert(d[0].name != d[1].name) by {
                assert(d[0].name.len() != d[1].name.len());
            }
            assert(d[0].name != d[2].name) by {
                assert(d[0].name[0] != d[2].name[0]);
            }
            assert(d[0].name != d[3].name) by {
                assert(d[0].name.len() != d[3].name.len());
            }
            assert(d[1].name != d[2].name) by {
                assert(d[1].name.len() != d[2].name.len());
            }
            assert(d[1].name != d[3].name) by {
                assert(d[1].name.len() != d[3].name.len());
            }
            assert(d[2].name != d[3].name) by {
                assert(d[2].name.len() != d[3].name.len());
            }
            assert(unique_names(d));
            assert(forall|i: int| 0 <= i < d.len() ==> station_wf(#[trigger] d[i]));
        }
        StationDirectory { stations: v }
    }
}

/// The entries of the compiled-in table: three FM stations and one webradio.
pub open spec fn default_stations() -> Seq<StationModel> {
    seq![
        StationModel { name: "NRJ"@, kind: StationKindModel::Fm { freq_dmhz: 1003 } },
        StationModel { name: "France Inter"@, kind: StationKindModel::Fm { freq_dmhz: 878 } },
        StationModel { name: "FIP"@, kind: StationKindModel::Fm { freq_dmhz: 1051 } },
        StationModel {
            name: "FIP Pop"@,
            kind: StationKindModel::Web { url: "http://icecast.radiofrance.fr/fippop-midfi.mp3"@ },
        },
    ]
}

} // verus!
