use custom_types::status::Status;
use custom_types::work::Work;

#[test]
fn the_rich_are_described() {
    assert_eq!(Status::Rich.describe(), "The rich have lots of money");
}

#[test]
fn the_poor_are_described() {
    assert_eq!(Status::Poor.describe(), "The poor have no money");
}

#[test]
fn civilians_are_described() {
    assert_eq!(Work::Civilian.describe(), "Civilians work!");
}

#[test]
fn soldiers_are_described() {
    assert_eq!(Work::Soldier.describe(), "Soldiers Fight!");
}

#[test]
fn the_two_statuses_are_described_differently() {
    assert_ne!(Status::Rich.describe(), Status::Poor.describe());
}

#[test]
fn the_two_lines_of_work_are_described_differently() {
    assert_ne!(Work::Civilian.describe(), Work::Soldier.describe());
}
