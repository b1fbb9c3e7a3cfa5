use jolteon::queue::{Queue, Track};
use jolteon::state::{encode_state, parse_state, split_lines, to_state, State};

#[test]
fn encode_writes_one_line_per_field() {
    let state = State {
        last_visited_path: Some(String::from("/music")),
        queue_items: vec![String::from("a.mp3"), String::from("b.flac")],
    };
    assert_eq!(encode_state(&state), "/music\na.mp3\nb.flac\n");
}

#[test]
fn encode_without_last_visited_leaves_the_first_line_empty() {
    let state = State {
        last_visited_path: None,
        queue_items: vec![String::from("a.mp3")],
    };
    assert_eq!(encode_state(&state), "\na.mp3\n");
}

#[test]
fn state_round_trips_through_its_text_form() {
    let state = State {
        last_visited_path: Some(String::from("/home/music")),
        queue_items: vec![
            String::from("one.mp3"),
            String::from("two.ogg"),
            String::from("three.wav"),
        ],
    };
    let parsed = parse_state(&encode_state(&state));
    assert_eq!(parsed.last_visited_path, state.last_visited_path);
    assert_eq!(parsed.queue_items, state.queue_items);
}

#[test]
fn empty_state_round_trips() {
    let state = State { last_visited_path: None, queue_items: Vec::new() };
    let parsed = parse_state(&encode_state(&state));
    assert_eq!(parsed.last_visited_path, None);
    assert!(parsed.queue_items.is_empty());
}

#[test]
fn parse_of_an_empty_file_gives_the_defaults() {
    let parsed = parse_state("");
    assert_eq!(parsed.last_visited_path, None);
    assert!(parsed.queue_items.is_empty());
}

#[test]
fn parse_keeps_an_unterminated_tail_line() {
    let parsed = parse_state("/music\na.mp3\nb.flac");
    assert_eq!(parsed.last_visited_path, Some(String::from("/music")));
    assert_eq!(
        parsed.queue_items,
        vec![String::from("a.mp3"), String::from("b.flac")]
    );
}

#[test]
fn split_lines_consumes_terminators() {
    assert_eq!(
        split_lines("a\n\nb\n"),
        vec![String::from("a"), String::from(""), String::from("b")]
    );
    assert_eq!(split_lines(""), Vec::<String>::new());
    assert_eq!(split_lines("\n"), vec![String::from("")]);
}

#[test]
fn to_state_projects_the_queue_paths() {
    let mut q = Queue::new();
    assert!(q.add(Track::new(String::from("x.mp3"), String::from("x"), 1000)));
    assert!(q.add(Track::new(String::from("y.mp3"), String::from("y"), 2000)));
    let state = to_state(Some(String::from("/here")), &q);
    assert_eq!(state.last_visited_path, Some(String::from("/here")));
    assert_eq!(state.queue_items, vec![String::from("x.mp3"), String::from("y.mp3")]);
}
