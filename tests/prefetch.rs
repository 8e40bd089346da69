use duden::{Rendezvous, Wait};

type Outcome = Result<String, String>;

fn payload(i: usize) -> Outcome {
    Ok(format!("page {i}"))
}

#[test]
fn resolves_under_reordering() {
    let order = [3usize, 1, 4, 0, 2];
    for resolve_after in 0..=order.len() {
        let mut rv: Rendezvous<Outcome> = Rendezvous::new(5);
        for (n, &i) in order.iter().enumerate() {
            if n == resolve_after {
                let expected = if order[..n].contains(&4) { Wait::Ready } else { Wait::Pending };
                assert_eq!(rv.status(4), expected);
            }
            rv.deliver(i, payload(i));
        }
        assert_eq!(rv.status(4), Wait::Ready);
        assert_eq!(rv.get(4), Some(&payload(4)));
        assert_eq!(rv.get(4), Some(&payload(4)));
    }
}

#[test]
fn step_waits_for_the_selected_index() {
    let mut rv: Rendezvous<Outcome> = Rendezvous::new(5);
    assert_eq!(rv.step(4, Some((3, payload(3)))), Wait::Pending);
    assert_eq!(rv.step(4, Some((1, payload(1)))), Wait::Pending);
    assert_eq!(rv.step(4, Some((4, payload(4)))), Wait::Ready);
    assert_eq!(rv.get(4), Some(&payload(4)));
    assert_eq!(rv.get(3), Some(&payload(3)));
    assert_eq!(rv.get(0), None);
}

#[test]
fn failure_is_returned_not_awaited() {
    let mut rv: Rendezvous<Outcome> = Rendezvous::new(3);
    rv.deliver(2, Err("timed out".to_string()));
    assert_eq!(rv.status(2), Wait::Ready);
    assert_eq!(rv.get(2), Some(&Err("timed out".to_string())));
}

#[test]
fn first_arrival_wins() {
    let mut rv: Rendezvous<Outcome> = Rendezvous::new(2);
    rv.deliver(0, payload(0));
    rv.deliver(0, Err("late".to_string()));
    assert_eq!(rv.get(0), Some(&payload(0)));
}

#[test]
fn closed_channel_reports_missing() {
    let mut rv: Rendezvous<Outcome> = Rendezvous::new(3);
    rv.deliver(0, payload(0));
    assert_eq!(rv.status(1), Wait::Pending);
    assert_eq!(rv.step(1, None), Wait::Missing);
    assert_eq!(rv.status(0), Wait::Ready);
    assert_eq!(rv.status(7), Wait::Missing);
    rv.deliver(7, payload(7));
    assert_eq!(rv.get(7), None);
}
