use async_chores::chores::intermediate::AroundTheHouse;
use async_chores::chores::simple::{Breakfast, Laundry};
use async_chores::chores::{ChoreRun, Choreable, Work};
use async_chores::household::{chores_to_run, ChoreKind};

fn plan<C: Choreable>() -> Vec<Work> {
    let mut works = Vec::new();
    let mut index = 0;
    while let Some(work) = C::task(index) {
        works.push(work);
        index += 1;
    }
    works
}

fn start_with<C: Choreable>(outcomes: &[bool]) -> (C, bool) {
    let mut chore = C::new();
    for (index, outcome) in outcomes.iter().enumerate() {
        assert!(C::task(index).is_some());
        chore.finish(index, *outcome);
    }
    let done = chore.is_done();
    (chore, done)
}

fn finish_times<C: Choreable>() -> Vec<u64> {
    let mut total = 0;
    let mut times = Vec::new();
    for work in plan::<C>() {
        if let Work::Timed { seconds, .. } = work {
            total += seconds;
        }
        times.push(total);
    }
    times
}

#[test]
fn breakfast_plan() {
    assert_eq!(
        plan::<Breakfast>(),
        vec![
            Work::Timed { label: "[task 1.a] breakfast.scramble_eggs", seconds: 3 },
            Work::Timed { label: "[task 1.b] breakfast.toast_bread", seconds: 1 },
            Work::Timed { label: "[task 1.c] breakfast.fry_sausage", seconds: 6 },
            Work::Timed { label: "[task 1.d] breakfast.pour_orange_juice", seconds: 1 },
        ]
    );
    assert_eq!(Breakfast::task(4), None);
}

#[test]
fn new_breakfast_is_not_done() {
    let breakfast = Breakfast::new();
    assert!(!breakfast.is_done());
    assert_eq!(
        format!("{:?}", breakfast),
        "Breakfast { eggs: false, toast: false, sausage: false, orange_juice: false }"
    );
}

#[test]
fn breakfast_done_after_every_sub_task() {
    let (breakfast, done) = start_with::<Breakfast>(&[true, true, true, true]);
    assert!(done);
    assert_eq!(
        format!("{:?}", breakfast),
        "Breakfast { eggs: true, toast: true, sausage: true, orange_juice: true }"
    );
}

#[test]
fn breakfast_not_done_when_a_wait_fails_or_is_missing() {
    assert!(!start_with::<Breakfast>(&[true, true, false, true]).1);
    assert!(!start_with::<Breakfast>(&[false, true, true, true]).1);
    assert!(!start_with::<Breakfast>(&[true, true, true]).1);
}

#[test]
fn laundry_plan() {
    assert_eq!(
        plan::<Laundry>(),
        vec![
            Work::Timed { label: "[task 2.a] laundry.pick up", seconds: 1 },
            Work::Timed { label: "[task 2.b] laundry.wash", seconds: 6 },
            Work::Timed { label: "[task 2.c] laundry.dry", seconds: 4 },
            Work::Timed { label: "[task 2.d] laundry.fold", seconds: 4 },
            Work::Timed { label: "[task 2.e] laundry.put_away", seconds: 2 },
        ]
    );
    assert_eq!(Laundry::task(5), None);
}

#[test]
fn new_laundry_is_not_done() {
    let laundry = Laundry::new();
    assert!(!laundry.is_done());
    assert_eq!(
        format!("{:?}", laundry),
        "Laundry { picked_up: false, washed: false, dried: false, folded: false, put_away: false }"
    );
}

#[test]
fn laundry_done_depends_on_picking_up_only() {
    let (laundry, done) = start_with::<Laundry>(&[true, false, false, false, false]);
    assert!(done);
    assert_eq!(
        format!("{:?}", laundry),
        "Laundry { picked_up: true, washed: true, dried: true, folded: true, put_away: true }"
    );
    assert!(!start_with::<Laundry>(&[false, true, true, true, true]).1);
    assert!(start_with::<Laundry>(&[true, true, true, true, true]).1);
}

#[test]
fn around_the_house_plan() {
    assert_eq!(
        plan::<AroundTheHouse>(),
        vec![
            Work::TakeOutTrash,
            Work::Timed { label: "[task 3.b] around-the-house.plants", seconds: 3 },
        ]
    );
    assert_eq!(AroundTheHouse::task(2), None);
}

#[test]
fn around_the_house_results() {
    let fresh = AroundTheHouse::new();
    assert!(!fresh.is_done());
    assert_eq!(
        format!("{:?}", fresh),
        "AroundTheHouse { trash_taken_out: false, plants_watered: false }"
    );
    assert!(start_with::<AroundTheHouse>(&[true, true]).1);
    assert!(!start_with::<AroundTheHouse>(&[false, true]).1);
    assert!(!start_with::<AroundTheHouse>(&[true, false]).1);
}

#[test]
fn breakfast_and_laundry_finish_interleaved() {
    assert_eq!(finish_times::<Breakfast>(), vec![3, 4, 10, 11]);
    assert_eq!(finish_times::<Laundry>(), vec![1, 7, 11, 15, 17]);
}

#[test]
fn chores_for_each_choice() {
    assert_eq!(chores_to_run((false, false, false)), vec![]);
    assert_eq!(
        chores_to_run((true, false, false)),
        vec![ChoreKind::Breakfast, ChoreKind::Laundry]
    );
    assert_eq!(chores_to_run((false, true, false)), vec![ChoreKind::AroundTheHouse]);
    assert_eq!(
        chores_to_run((true, true, false)),
        vec![ChoreKind::Breakfast, ChoreKind::Laundry, ChoreKind::AroundTheHouse]
    );
}

#[test]
fn run_walks_the_sub_tasks_in_order() {
    let mut run = ChoreRun::start(Breakfast::new());
    let mut seen = Vec::new();
    while let Some(work) = run.next_work() {
        seen.push(work);
        run.report(true);
    }
    assert_eq!(seen, plan::<Breakfast>());
    assert!(run.is_done());
    assert_eq!(
        format!("{:?}", run.into_chore()),
        "Breakfast { eggs: true, toast: true, sausage: true, orange_juice: true }"
    );
}

#[test]
fn run_records_each_outcome() {
    let mut run = ChoreRun::start(Laundry::new());
    for outcome in [true, false, false, false, false] {
        assert!(run.next_work().is_some());
        run.report(outcome);
    }
    assert_eq!(run.next_work(), None);
    assert!(run.is_done());

    let mut run = ChoreRun::start(AroundTheHouse::new());
    assert_eq!(run.next_work(), Some(Work::TakeOutTrash));
    run.report(true);
    assert!(!run.is_done());
    run.report(false);
    assert!(!run.is_done());
    assert_eq!(
        format!("{:?}", run.into_chore()),
        "AroundTheHouse { trash_taken_out: true, plants_watered: false }"
    );
}

#[test]
fn run_of_a_finished_chore_starts_again_from_the_first_sub_task() {
    let (breakfast, done) = start_with::<Breakfast>(&[true, true, true, true]);
    assert!(done);
    let mut run = ChoreRun::start(breakfast);
    assert_eq!(run.next_work(), Breakfast::task(0));
    run.report(false);
    assert!(!run.is_done());
}
