use isak::{
    partuuid_token, DeviceHandle, Query, Reply, Resolution, ResolutionRequest, ResolveError, Stage,
    Step,
};

/// A scripted oracle: tables of what it knows, and a record of what it was
/// asked.
struct Table {
    cache: Vec<(String, String)>,
    nodes: Vec<(String, DeviceHandle)>,
    disks: Vec<(DeviceHandle, DeviceHandle)>,
    names: Vec<(DeviceHandle, String)>,
    partitions: Vec<(String, i32, Option<[u8; 16]>)>,
    broken: Vec<Query<String>>,
    asked: Vec<Query<String>>,
}

impl Table {
    fn answer(&mut self, query: Query<String>) -> Reply<String> {
        self.asked.push(query.clone());
        if self.broken.contains(&query) {
            return Reply::Failed;
        }
        match query {
            Query::Lookup { token } => match self.cache.iter().find(|(t, _)| *t == token) {
                Some((_, path)) => Reply::Path(path.clone()),
                None => Reply::Absent,
            },
            Query::Open { path } => match self.nodes.iter().find(|(p, _)| *p == path) {
                Some((_, device)) => Reply::Device(*device),
                None => Reply::Failed,
            },
            Query::WholeDisk { device } => match self.disks.iter().find(|(d, _)| *d == device) {
                Some((_, disk)) => Reply::Device(*disk),
                None => Reply::Failed,
            },
            Query::Name { device } => match self.names.iter().find(|(d, _)| *d == device) {
                Some((_, name)) => Reply::Name(name.clone()),
                None => Reply::Failed,
            },
            Query::Partition { disk, number } => {
                if !self.nodes.iter().any(|(p, _)| *p == disk) {
                    return Reply::Failed;
                }
                match self.partitions.iter().find(|(d, n, _)| *d == disk && *n == number) {
                    Some((_, _, uuid)) => Reply::Partition(*uuid),
                    None => Reply::Absent,
                }
            }
        }
    }
}

fn dev(major: u32, minor: u32) -> DeviceHandle {
    DeviceHandle { major, minor }
}

fn sda() -> DeviceHandle {
    dev(8, 0)
}

fn sda1() -> DeviceHandle {
    dev(8, 1)
}

fn sda3() -> DeviceHandle {
    dev(8, 3)
}

fn nvme_p2() -> DeviceHandle {
    dev(259, 2)
}

fn uuid_of_sda3() -> [u8; 16] {
    [
        0x67, 0xe5, 0x50, 0x44, 0x10, 0xb1, 0x42, 0x6f, 0x92, 0x47, 0xbb, 0x68, 0x0e, 0x5f, 0xe0,
        0xc8,
    ]
}

fn text(s: &str) -> String {
    s.to_string()
}

/// One disk `sda` with partitions 1 (no UUID on record), 3 (with a UUID) and
/// an NVMe partition on the side.
fn machine_room() -> Table {
    Table {
        cache: vec![
            (text("LABEL=boot"), text("/dev/sda1")),
            (text("LABEL=disk"), text("/dev/sda")),
            (text("PARTUUID=67e55044-10b1-426f-9247-bb680e5fe0c8"), text("/dev/sda3")),
            (text("LABEL=ghost"), text("/dev/gone")),
        ],
        nodes: vec![
            (text("/dev/sda"), sda()),
            (text("/dev/sda1"), sda1()),
            (text("/dev/sda3"), sda3()),
            (text("/dev/nvme0n1p2"), nvme_p2()),
        ],
        disks: vec![(sda(), sda()), (sda1(), sda()), (sda3(), sda())],
        names: vec![
            (sda(), text("/dev/sda")),
            (sda1(), text("/dev/sda1")),
            (sda3(), text("/dev/sda3")),
            (nvme_p2(), text("/dev/nvme0n1p2")),
        ],
        partitions: vec![
            (text("/dev/sda"), 1, None),
            (text("/dev/sda"), 3, Some(uuid_of_sda3())),
        ],
        broken: vec![],
        asked: vec![],
    }
}

fn request(
    token: Option<&str>,
    path: Option<&str>,
    parent: bool,
    partno: Option<i32>,
) -> ResolutionRequest<String> {
    ResolutionRequest { token: token.map(text), path: path.map(text), parent, partno }
}

/// Runs the machine against the table, the way a caller runs it against the
/// real oracle.
fn resolve(
    table: &mut Table,
    request: ResolutionRequest<String>,
) -> Result<Resolution<String>, ResolveError> {
    let mut step = request.begin();
    let mut questions = 0;
    loop {
        match step {
            Step::Ask(stage) => {
                questions += 1;
                assert!(questions <= 9);
                let reply = table.answer(stage.query());
                step = stage.answer(reply);
            }
            Step::Resolved(resolution) => return Ok(resolution),
            Step::Failed(error) => return Err(error),
        }
    }
}

fn resolved(device: DeviceHandle, name: &str) -> Result<Resolution<String>, ResolveError> {
    Ok(Resolution { device, name: text(name) })
}

fn lookup(token: &str) -> Query<String> {
    Query::Lookup { token: text(token) }
}

fn open_node(path: &str) -> Query<String> {
    Query::Open { path: text(path) }
}

#[test]
fn token_resolves_to_its_device() {
    let mut table = machine_room();
    let result = resolve(&mut table, request(Some("LABEL=boot"), None, false, None));
    assert_eq!(result, resolved(sda1(), "/dev/sda1"));
    assert_eq!(
        table.asked,
        vec![lookup("LABEL=boot"), open_node("/dev/sda1"), Query::Name { device: sda1() }]
    );
}

#[test]
fn token_with_parent_resolves_to_the_whole_disk() {
    let mut table = machine_room();
    let result = resolve(&mut table, request(Some("LABEL=boot"), None, true, None));
    assert_eq!(result, resolved(sda(), "/dev/sda"));
    assert_eq!(
        table.asked,
        vec![
            lookup("LABEL=boot"),
            open_node("/dev/sda1"),
            Query::WholeDisk { device: sda1() },
            Query::Name { device: sda() },
        ]
    );
}

#[test]
fn token_with_parent_and_partno_descends_to_the_partition() {
    let mut table = machine_room();
    let result = resolve(&mut table, request(Some("LABEL=boot"), None, true, Some(3)));
    assert_eq!(result, resolved(sda3(), "/dev/sda3"));
    assert_eq!(
        table.asked,
        vec![
            lookup("LABEL=boot"),
            open_node("/dev/sda1"),
            Query::WholeDisk { device: sda1() },
            Query::Name { device: sda() },
            Query::Partition { disk: text("/dev/sda"), number: 3 },
            lookup("PARTUUID=67e55044-10b1-426f-9247-bb680e5fe0c8"),
            open_node("/dev/sda3"),
            Query::Name { device: sda3() },
        ]
    );
}

#[test]
fn path_alone_is_opened_directly() {
    let mut table = machine_room();
    let result = resolve(&mut table, request(None, Some("/dev/nvme0n1p2"), false, None));
    assert_eq!(result, resolved(nvme_p2(), "/dev/nvme0n1p2"));
    assert_eq!(table.asked, vec![open_node("/dev/nvme0n1p2"), Query::Name { device: nvme_p2() }]);
}

#[test]
fn request_without_token_and_path_fails_at_once() {
    for parent in [false, true] {
        for partno in [None, Some(0), Some(3)] {
            let step = request(None, None, parent, partno).begin();
            assert_eq!(step, Step::Failed(ResolveError::DeviceNotFound));
        }
    }
    let mut table = machine_room();
    let result = resolve(&mut table, request(None, None, true, Some(3)));
    assert_eq!(result, Err(ResolveError::DeviceNotFound));
    assert!(table.asked.is_empty());
}

#[test]
fn path_overrides_token() {
    let mut table = machine_room();
    let result =
        resolve(&mut table, request(Some("LABEL=boot"), Some("/dev/nvme0n1p2"), false, None));
    assert_eq!(result, resolved(nvme_p2(), "/dev/nvme0n1p2"));
    assert_eq!(
        table.asked,
        vec![
            lookup("LABEL=boot"),
            open_node("/dev/sda1"),
            open_node("/dev/nvme0n1p2"),
            Query::Name { device: nvme_p2() },
        ]
    );
}

#[test]
fn path_overrides_token_before_the_parent_walk() {
    let mut table = machine_room();
    let with_token =
        resolve(&mut table, request(Some("LABEL=disk"), Some("/dev/sda3"), true, Some(3)));
    let mut fresh = machine_room();
    let without_token = resolve(&mut fresh, request(None, Some("/dev/sda3"), true, Some(3)));
    assert_eq!(with_token, without_token);
    assert_eq!(with_token, resolved(sda3(), "/dev/sda3"));
    assert!(table.asked.contains(&Query::WholeDisk { device: sda3() }));
    assert!(!table.asked.contains(&Query::WholeDisk { device: sda() }));
}

#[test]
fn token_miss_alone_is_device_not_found() {
    let mut table = machine_room();
    let result = resolve(&mut table, request(Some("LABEL=nowhere"), None, false, None));
    assert_eq!(result, Err(ResolveError::DeviceNotFound));
    assert_eq!(table.asked, vec![lookup("LABEL=nowhere")]);
}

#[test]
fn token_miss_falls_back_to_the_path() {
    let mut table = machine_room();
    let result =
        resolve(&mut table, request(Some("LABEL=nowhere"), Some("/dev/sda1"), false, None));
    assert_eq!(result, resolved(sda1(), "/dev/sda1"));
}

#[test]
fn token_failure_stops_before_the_path() {
    let mut table = machine_room();
    table.broken.push(lookup("LABEL=boot"));
    let result = resolve(&mut table, request(Some("LABEL=boot"), Some("/dev/sda1"), false, None));
    assert_eq!(result, Err(ResolveError::OracleError));
    assert_eq!(table.asked, vec![lookup("LABEL=boot")]);
}

#[test]
fn token_whose_node_cannot_be_opened_is_an_oracle_error() {
    let mut table = machine_room();
    let result = resolve(&mut table, request(Some("LABEL=ghost"), Some("/dev/sda1"), false, None));
    assert_eq!(result, Err(ResolveError::OracleError));
    assert_eq!(table.asked, vec![lookup("LABEL=ghost"), open_node("/dev/gone")]);
}

#[test]
fn path_that_cannot_be_opened_is_an_oracle_error() {
    let mut table = machine_room();
    let result = resolve(&mut table, request(Some("LABEL=boot"), Some("/dev/gone"), false, None));
    assert_eq!(result, Err(ResolveError::OracleError));
}

#[test]
fn parent_walk_keeps_a_whole_disk() {
    let mut table = machine_room();
    let walked = resolve(&mut table, request(None, Some("/dev/sda"), true, None));
    let mut fresh = machine_room();
    let plain = resolve(&mut fresh, request(None, Some("/dev/sda"), false, None));
    assert_eq!(walked, plain);
    assert_eq!(walked, resolved(sda(), "/dev/sda"));
}

#[test]
fn parent_walk_failure_is_an_oracle_error() {
    let mut table = machine_room();
    let result = resolve(&mut table, request(None, Some("/dev/nvme0n1p2"), true, None));
    assert_eq!(result, Err(ResolveError::OracleError));
}

#[test]
fn descent_reaches_what_the_partuuid_token_resolves_to() {
    let mut table = machine_room();
    let descent = resolve(&mut table, request(None, Some("/dev/sda"), false, Some(3)));
    let token = partuuid_token(&uuid_of_sda3());
    let mut fresh = machine_room();
    let direct = resolve(&mut fresh, request(Some(token.as_str()), None, false, None));
    assert_eq!(descent, direct);
    assert_eq!(descent, resolved(sda3(), "/dev/sda3"));
}

#[test]
fn descent_without_parent_flag_starts_at_the_candidate() {
    let mut table = machine_room();
    let result = resolve(&mut table, request(Some("LABEL=disk"), None, false, Some(3)));
    assert_eq!(result, resolved(sda3(), "/dev/sda3"));
    assert!(!table.asked.iter().any(|q| matches!(q, Query::WholeDisk { .. })));
}

#[test]
fn descent_to_a_missing_partition_is_partition_not_found() {
    let mut table = machine_room();
    let result = resolve(&mut table, request(Some("LABEL=boot"), None, true, Some(7)));
    assert_eq!(result, Err(ResolveError::PartitionNotFound));
}

#[test]
fn descent_to_a_negative_partition_number_asks_for_it_unchanged() {
    let mut table = machine_room();
    let result = resolve(&mut table, request(None, Some("/dev/sda"), false, Some(-1)));
    assert_eq!(result, Err(ResolveError::PartitionNotFound));
    assert!(table.asked.contains(&Query::Partition { disk: text("/dev/sda"), number: -1 }));
}

#[test]
fn descent_to_a_partition_without_uuid_is_partition_uuid_missing() {
    let mut table = machine_room();
    let result = resolve(&mut table, request(Some("LABEL=boot"), None, true, Some(1)));
    assert_eq!(result, Err(ResolveError::PartitionUuidMissing));
}

#[test]
fn descent_whose_token_misses_the_cache_is_not_found() {
    let mut table = machine_room();
    table.cache.retain(|(token, _)| !token.starts_with("PARTUUID="));
    let result = resolve(&mut table, request(Some("LABEL=boot"), None, true, Some(3)));
    assert_eq!(result, Err(ResolveError::NotFound));
}

#[test]
fn descent_from_a_disk_that_cannot_be_probed_is_an_oracle_error() {
    let mut table = machine_room();
    table.broken.push(Query::Partition { disk: text("/dev/sda"), number: 3 });
    let result = resolve(&mut table, request(Some("LABEL=boot"), None, true, Some(3)));
    assert_eq!(result, Err(ResolveError::OracleError));
}

#[test]
fn descent_from_a_disk_without_a_name_is_an_oracle_error() {
    let mut table = machine_room();
    table.broken.push(Query::Name { device: sda() });
    let result = resolve(&mut table, request(Some("LABEL=boot"), None, true, Some(3)));
    assert_eq!(result, Err(ResolveError::OracleError));
    assert!(!table.asked.iter().any(|q| matches!(q, Query::Partition { .. })));
}

#[test]
fn final_name_failure_is_an_oracle_error() {
    let mut table = machine_room();
    table.broken.push(Query::Name { device: sda1() });
    let result = resolve(&mut table, request(Some("LABEL=boot"), None, false, None));
    assert_eq!(result, Err(ResolveError::OracleError));
}

#[test]
fn full_request_asks_nine_questions_in_order() {
    let mut table = machine_room();
    let result =
        resolve(&mut table, request(Some("LABEL=boot"), Some("/dev/sda1"), true, Some(3)));
    assert_eq!(result, resolved(sda3(), "/dev/sda3"));
    assert_eq!(
        table.asked,
        vec![
            lookup("LABEL=boot"),
            open_node("/dev/sda1"),
            open_node("/dev/sda1"),
            Query::WholeDisk { device: sda1() },
            Query::Name { device: sda() },
            Query::Partition { disk: text("/dev/sda"), number: 3 },
            lookup("PARTUUID=67e55044-10b1-426f-9247-bb680e5fe0c8"),
            open_node("/dev/sda3"),
            Query::Name { device: sda3() },
        ]
    );
}

#[test]
fn begin_with_a_token_asks_for_the_lookup() {
    let step = request(Some("LABEL=boot"), Some("/dev/sda1"), true, Some(3)).begin();
    let expected = Stage::TokenLookup {
        token: text("LABEL=boot"),
        path: Some(text("/dev/sda1")),
        parent: true,
        partno: Some(3),
    };
    assert_eq!(step, Step::Ask(expected.clone()));
    assert_eq!(expected.query(), lookup("LABEL=boot"));
}

#[test]
fn begin_with_a_path_alone_asks_to_open_it() {
    let step = request(None, Some("/dev/sda1"), false, Some(2)).begin();
    let expected = Stage::PathOpen { node: text("/dev/sda1"), parent: false, partno: Some(2) };
    assert_eq!(step, Step::Ask(expected.clone()));
    assert_eq!(expected.query(), open_node("/dev/sda1"));
}

#[test]
fn each_stage_asks_its_own_question() {
    let token_open: Stage<String> =
        Stage::TokenOpen { node: text("/dev/sda1"), path: None, parent: false, partno: None };
    assert_eq!(token_open.query(), open_node("/dev/sda1"));
    let walk: Stage<String> = Stage::ParentWalk { candidate: sda1(), partno: None };
    assert_eq!(walk.query(), Query::WholeDisk { device: sda1() });
    let name: Stage<String> = Stage::DescentName { disk: sda(), number: 3 };
    assert_eq!(name.query(), Query::Name { device: sda() });
    let probe: Stage<String> = Stage::DescentProbe { name: text("/dev/sda"), number: 3 };
    assert_eq!(probe.query(), Query::Partition { disk: text("/dev/sda"), number: 3 });
    let again: Stage<String> = Stage::DescentLookup { token: text("PARTUUID=x") };
    assert_eq!(again.query(), lookup("PARTUUID=x"));
    let node: Stage<String> = Stage::DescentOpen { node: text("/dev/sda3") };
    assert_eq!(node.query(), open_node("/dev/sda3"));
    let last: Stage<String> = Stage::FinalName { device: sda3() };
    assert_eq!(last.query(), Query::Name { device: sda3() });
}

#[test]
fn probe_answer_with_uuid_asks_for_its_token() {
    let probe: Stage<String> = Stage::DescentProbe { name: text("/dev/sda"), number: 3 };
    let step = probe.answer(Reply::Partition(Some(uuid_of_sda3())));
    assert_eq!(
        step,
        Step::Ask(Stage::DescentLookup {
            token: text("PARTUUID=67e55044-10b1-426f-9247-bb680e5fe0c8"),
        })
    );
}

#[test]
fn answer_that_does_not_fit_is_an_oracle_error() {
    let walk: Stage<String> = Stage::ParentWalk { candidate: sda1(), partno: None };
    assert_eq!(walk.answer(Reply::Name(text("/dev/sda"))), Step::Failed(ResolveError::OracleError));
    let lookup_stage: Stage<String> =
        Stage::TokenLookup { token: text("LABEL=boot"), path: None, parent: false, partno: None };
    assert_eq!(
        lookup_stage.answer(Reply::Name(text("/dev/sda1"))),
        Step::Failed(ResolveError::OracleError)
    );
    let last: Stage<String> = Stage::FinalName { device: sda1() };
    assert_eq!(last.answer(Reply::Path(text("/dev/sda1"))), Step::Failed(ResolveError::OracleError));
    let last: Stage<String> = Stage::FinalName { device: sda1() };
    assert_eq!(last.answer(Reply::Absent), Step::Failed(ResolveError::OracleError));
    let probe: Stage<String> = Stage::DescentProbe { name: text("/dev/sda"), number: 3 };
    assert_eq!(probe.answer(Reply::Device(sda3())), Step::Failed(ResolveError::OracleError));
}

#[test]
fn handles_are_equal_when_both_numbers_are() {
    assert_eq!(dev(8, 1), dev(8, 1));
    assert_ne!(dev(8, 1), dev(8, 2));
    assert_ne!(dev(8, 1), dev(9, 1));
}

#[test]
fn each_lookup_is_asked_afresh() {
    let mut table = machine_room();
    table.cache.retain(|(token, _)| !token.starts_with("PARTUUID="));
    let mut step = request(Some("LABEL=boot"), None, true, Some(3)).begin();
    let mut lookups = 0;
    let result = loop {
        match step {
            Step::Ask(stage) => {
                let query = stage.query();
                let is_lookup = matches!(query, Query::Lookup { .. });
                let reply = table.answer(query);
                if is_lookup {
                    lookups += 1;
                    table.cache.push((
                        text("PARTUUID=67e55044-10b1-426f-9247-bb680e5fe0c8"),
                        text("/dev/sda3"),
                    ));
                }
                step = stage.answer(reply);
            }
            Step::Resolved(resolution) => break Ok(resolution),
            Step::Failed(error) => break Err(error),
        }
    };
    assert_eq!(lookups, 2);
    assert_eq!(result, resolved(sda3(), "/dev/sda3"));
}

#[test]
fn request_without_parent_and_partno_asks_for_neither() {
    let mut table = machine_room();
    let result =
        resolve(&mut table, request(Some("LABEL=boot"), Some("/dev/sda3"), false, None));
    assert_eq!(result, resolved(sda3(), "/dev/sda3"));
    assert!(!table.asked.iter().any(|q| matches!(q, Query::WholeDisk { .. })));
    assert!(!table.asked.iter().any(|q| matches!(q, Query::Partition { .. })));
}
