use std::collections::BTreeMap;
use workload_driver::catalog::{file_names, standard_catalog, TestFile};
use workload_driver::driver::{
    workload, Action, Driver, Failure, Operation, Reply, Strategy,
};

/// A scope as the span recorder would see it.
struct Scope {
    name: &'static str,
    file: Option<String>,
    parent: Option<usize>,
}

/// An in-memory stand-in for everything the driver's caller touches: the
/// disk, the span recorder and the spawned tasks.
struct World {
    disk: BTreeMap<String, String>,
    unreadable: Vec<String>,
    stuck: Vec<String>,
    scopes: Vec<Scope>,
    outer: Option<usize>,
    finished: Vec<String>,
    tasks: BTreeMap<usize, usize>,
    probes: usize,
    removals: usize,
}

impl World {
    fn new() -> World {
        World {
            disk: BTreeMap::new(),
            unreadable: Vec::new(),
            stuck: Vec::new(),
            scopes: Vec::new(),
            outer: None,
            finished: Vec::new(),
            tasks: BTreeMap::new(),
            probes: 0,
            removals: 0,
        }
    }

    fn open_file_scope(&mut self, name: &str) -> usize {
        self.scopes.push(Scope {
            name: "read_file",
            file: Some(name.to_string()),
            parent: self.outer,
        });
        self.scopes.len() - 1
    }

    fn read(&mut self, name: &str) -> bool {
        if self.unreadable.iter().any(|unreadable| unreadable == name) {
            return false;
        }
        match self.disk.get(name) {
            Some(_) => {
                self.finished.push(name.to_string());
                true
            }
            None => false,
        }
    }

    fn perform(&mut self, catalog: &[TestFile], action: Action) -> Reply {
        let done = |ok: bool| if ok { Reply::Done } else { Reply::Failed };
        match action {
            Action::WriteFile { file } => {
                self.disk.insert(catalog[file].name.clone(), catalog[file].content());
                Reply::Done
            }
            Action::OpenScope => {
                self.scopes.push(Scope { name: "read_files", file: None, parent: None });
                self.outer = Some(self.scopes.len() - 1);
                Reply::Done
            }
            Action::ReadFile { file } => {
                self.open_file_scope(&catalog[file].name);
                done(self.read(&catalog[file].name))
            }
            Action::ReadAll { .. } => {
                let mut all = true;
                for file in catalog.iter().rev() {
                    self.open_file_scope(&file.name);
                    all = self.read(&file.name) && all;
                }
                done(all)
            }
            Action::SpawnRead { file } => {
                let scope = self.open_file_scope(&catalog[file].name);
                self.tasks.insert(file, scope);
                Reply::Done
            }
            Action::AwaitRead { file } => {
                assert!(self.tasks.remove(&file).is_some());
                done(self.read(&catalog[file].name))
            }
            Action::CloseScope => {
                self.outer = None;
                Reply::Done
            }
            Action::ProbeFile { file } => {
                self.probes += 1;
                if self.disk.contains_key(&catalog[file].name) {
                    Reply::Present
                } else {
                    Reply::Absent
                }
            }
            Action::RemoveFile { file } => {
                self.removals += 1;
                let name = &catalog[file].name;
                if self.stuck.iter().any(|stuck| stuck == name) {
                    return Reply::Failed;
                }
                done(self.disk.remove(name).is_some())
            }
            Action::Finish | Action::Abort { .. } => unreachable!(),
        }
    }

    /// Runs one operation to its end and returns the final action.
    fn run(&mut self, catalog: &[TestFile], operation: Operation) -> Action {
        let mut driver = Driver::begin(operation, catalog.len());
        while !driver.is_over() {
            let reply = self.perform(catalog, driver.pending);
            assert!(driver.accepts(reply));
            driver.step(reply);
        }
        driver.pending
    }

    fn has_file(&self, name: &str) -> bool {
        self.disk.contains_key(name)
    }

    fn size_of(&self, name: &str) -> usize {
        self.disk[name].chars().count()
    }

    fn forget_records(&mut self) {
        self.scopes.clear();
        self.finished.clear();
    }
}

fn two_files() -> Vec<TestFile> {
    vec![
        TestFile { name: String::from("a.txt"), size_bytes: 10 },
        TestFile { name: String::from("b.txt"), size_bytes: 20 },
    ]
}

fn strategies() -> [Strategy; 4] {
    [
        Strategy::Sequential,
        Strategy::DataParallel,
        Strategy::ConditionallyParallel,
        Strategy::Async,
    ]
}

#[test]
fn prepared_standard_files_read_back_with_their_size_in_printable_ascii() {
    let catalog = standard_catalog();
    let mut world = World::new();
    assert_eq!(world.run(&catalog, Operation::Prepare), Action::Finish);
    assert_eq!(world.disk.len(), 4);
    for file in &catalog {
        let content = &world.disk[&file.name];
        assert_eq!(content.chars().count(), file.size_bytes);
        assert!(content.chars().all(|c| (32..=126).contains(&(c as u32))));
    }
}

#[test]
fn two_file_catalog_is_prepared_read_and_cleaned_up() {
    let catalog = two_files();
    let mut world = World::new();

    assert_eq!(world.run(&catalog, Operation::Prepare), Action::Finish);
    assert!(world.has_file("a.txt"));
    assert_eq!(world.size_of("a.txt"), 10);
    assert!(world.has_file("b.txt"));
    assert_eq!(world.size_of("b.txt"), 20);

    for strategy in strategies() {
        world.forget_records();
        assert_eq!(world.run(&catalog, Operation::Read(strategy)), Action::Finish);
        let mut finished = world.finished.clone();
        finished.sort();
        assert_eq!(finished, vec!["a.txt", "b.txt"]);
    }

    assert_eq!(world.run(&catalog, Operation::Cleanup), Action::Finish);
    assert!(!world.has_file("a.txt"));
    assert!(!world.has_file("b.txt"));
}

#[test]
fn read_failure_in_the_async_run_ends_the_workload_before_cleanup() {
    let catalog = two_files();
    let mut world = World::new();
    let mut started = Vec::new();
    let mut last = Action::Finish;
    for operation in workload() {
        if operation == Operation::Read(Strategy::Async) {
            world.unreadable.push(String::from("b.txt"));
        }
        started.push(operation);
        last = world.run(&catalog, operation);
        if let Action::Abort { .. } = last {
            break;
        }
    }
    assert_eq!(last, Action::Abort { failure: Failure::TaskFailed });
    assert_eq!(started.last(), Some(&Operation::Read(Strategy::Async)));
    assert!(!started.contains(&Operation::Cleanup));
    assert_eq!(world.probes, 0);
    assert_eq!(world.removals, 0);
    assert!(world.has_file("a.txt"));
    assert!(world.has_file("b.txt"));
}

#[test]
fn whole_workload_leaves_no_catalog_file_behind() {
    let catalog = two_files();
    let mut world = World::new();
    world.disk.insert(String::from("other.txt"), String::from("kept"));
    for operation in workload() {
        assert_eq!(world.run(&catalog, operation), Action::Finish);
    }
    assert!(!world.has_file("a.txt"));
    assert!(!world.has_file("b.txt"));
    assert!(world.has_file("other.txt"));
    assert_eq!(world.removals, 2);
}

#[test]
fn cleanup_twice_in_a_row_does_not_fail() {
    let catalog = standard_catalog();
    let mut world = World::new();
    for file in &catalog {
        world.disk.insert(file.name.clone(), String::new());
    }
    assert_eq!(world.run(&catalog, Operation::Cleanup), Action::Finish);
    assert_eq!(world.removals, 4);
    assert!(world.disk.is_empty());

    world.stuck = file_names(&catalog);
    assert_eq!(world.run(&catalog, Operation::Cleanup), Action::Finish);
    assert_eq!(world.removals, 4);
    assert_eq!(world.probes, 8);
    assert!(world.disk.is_empty());
}

#[test]
fn cleanup_skips_files_that_are_not_there() {
    let catalog = standard_catalog();
    let mut world = World::new();
    world.disk.insert(String::from("large.txt"), String::new());
    assert_eq!(world.run(&catalog, Operation::Cleanup), Action::Finish);
    assert_eq!(world.probes, 4);
    assert_eq!(world.removals, 1);
    assert!(world.disk.is_empty());
}

#[test]
fn cleanup_of_a_name_that_occurs_twice_removes_it_once() {
    let catalog = vec![
        TestFile { name: String::from("a.txt"), size_bytes: 1 },
        TestFile { name: String::from("a.txt"), size_bytes: 2 },
    ];
    let mut world = World::new();
    assert_eq!(world.run(&catalog, Operation::Prepare), Action::Finish);
    assert_eq!(world.run(&catalog, Operation::Cleanup), Action::Finish);
    assert_eq!(world.probes, 2);
    assert_eq!(world.removals, 1);
    assert!(!world.has_file("a.txt"));
}

#[test]
fn removal_that_fails_ends_the_cleanup_at_once() {
    let catalog = two_files();
    let mut world = World::new();
    assert_eq!(world.run(&catalog, Operation::Prepare), Action::Finish);
    world.stuck.push(String::from("a.txt"));
    assert_eq!(
        world.run(&catalog, Operation::Cleanup),
        Action::Abort { failure: Failure::RemoveFailed }
    );
    assert_eq!(world.probes, 1);
    assert!(world.has_file("a.txt"));
    assert!(world.has_file("b.txt"));
}

#[test]
fn every_strategy_records_each_file_exactly_once() {
    let catalog = standard_catalog();
    let mut world = World::new();
    for file in &catalog {
        world.disk.insert(file.name.clone(), String::from("x"));
    }
    for strategy in strategies() {
        world.forget_records();
        assert_eq!(world.run(&catalog, Operation::Read(strategy)), Action::Finish);
        assert_eq!(world.finished.len(), catalog.len());
        for file in &catalog {
            let records = world.finished.iter().filter(|name| **name == file.name).count();
            assert_eq!(records, 1);
        }
    }
}

#[test]
fn sequential_run_records_files_in_catalog_order() {
    let catalog = standard_catalog();
    let mut world = World::new();
    for file in &catalog {
        world.disk.insert(file.name.clone(), String::from("x"));
    }
    assert_eq!(world.run(&catalog, Operation::Read(Strategy::Sequential)), Action::Finish);
    assert_eq!(world.finished, file_names(&catalog));
}

#[test]
fn every_file_scope_is_a_child_of_the_one_outer_scope() {
    let catalog = standard_catalog();
    let mut world = World::new();
    for file in &catalog {
        world.disk.insert(file.name.clone(), String::from("x"));
    }
    for strategy in strategies() {
        world.forget_records();
        assert_eq!(world.run(&catalog, Operation::Read(strategy)), Action::Finish);
        let outer: Vec<usize> = (0..world.scopes.len())
            .filter(|at| world.scopes[*at].name == "read_files")
            .collect();
        assert_eq!(outer, vec![0]);
        assert_eq!(world.scopes[0].parent, None);
        assert_eq!(world.scopes.len(), 1 + catalog.len());
        for scope in &world.scopes[1..] {
            assert_eq!(scope.name, "read_file");
            assert_eq!(scope.parent, Some(0));
        }
        for file in &catalog {
            let scopes = world
                .scopes
                .iter()
                .filter(|scope| scope.file.as_deref() == Some(file.name.as_str()))
                .count();
            assert_eq!(scopes, 1);
        }
        assert_eq!(world.outer, None);
    }
}

#[test]
fn missing_file_is_fatal_under_every_strategy() {
    let catalog = two_files();
    for strategy in strategies() {
        let mut world = World::new();
        world.disk.insert(String::from("a.txt"), String::from("x"));
        let expected = match strategy {
            Strategy::Async => Failure::TaskFailed,
            _ => Failure::ReadFailed,
        };
        assert_eq!(
            world.run(&catalog, Operation::Read(strategy)),
            Action::Abort { failure: expected }
        );
        assert!(world.has_file("a.txt"));
    }
}

#[test]
fn failed_sequential_read_stops_before_the_next_file() {
    let catalog = standard_catalog();
    let mut world = World::new();
    for file in &catalog {
        world.disk.insert(file.name.clone(), String::from("x"));
    }
    world.unreadable.push(String::from("medium.txt"));
    assert_eq!(
        world.run(&catalog, Operation::Read(Strategy::Sequential)),
        Action::Abort { failure: Failure::ReadFailed }
    );
    assert_eq!(world.finished, vec!["small.txt"]);
    assert_eq!(world.scopes.len(), 3);
}
