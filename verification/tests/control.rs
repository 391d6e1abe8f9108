use audio_sessions::control::SessionSearch;

fn run(target: u32, pids: &[u32]) -> (Vec<i32>, Option<i32>) {
    let mut search = SessionSearch::new(target, pids.len() as i32);
    let mut visited = Vec::new();
    while let Some(position) = search.next_index() {
        visited.push(position);
        if search.observe(pids[position as usize]) {
            return (visited, Some(position));
        }
    }
    (visited, None)
}

#[test]
fn change_reaches_first_session_of_process() {
    assert_eq!(run(7, &[3, 7, 7, 9]), (vec![0, 1], Some(1)));
}

#[test]
fn absent_process_changes_nothing() {
    assert_eq!(run(5, &[3, 7, 9]), (vec![0, 1, 2], None));
    assert_eq!(run(5, &[]), (vec![], None));
}

#[test]
fn negative_count_visits_no_session() {
    let search = SessionSearch::new(1, -3);
    assert_eq!(search.next_index(), None);
}
