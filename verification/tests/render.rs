use player_metrics::aggregate_players;
use player_metrics::poll_count;
use player_metrics::render_metrics;
use player_metrics::scrape_body;
use player_metrics::u64_to_decimal;

#[test]
fn renders_the_exposition_body() {
    assert_eq!(
        render_metrics(10),
        "# TYPE ss14_total_player_count gauge\nss14_total_player_count 10"
    );
}

#[test]
fn three_servers_one_failed() {
    // Three polled servers: 3 players, a failed poll, 7 players.
    let polls: Vec<Option<String>> = vec![
        Some(String::from("{\"players\": 3}")),
        None,
        Some(String::from("{\"players\": 7}")),
    ];
    let mut counts: Vec<u64> = Vec::new();
    for body in &polls {
        counts.push(poll_count(body));
    }
    let body = render_metrics(aggregate_players(&counts));
    assert_eq!(
        body,
        "# TYPE ss14_total_player_count gauge\nss14_total_player_count 10"
    );
}

#[test]
fn empty_fleet_renders_zero() {
    let counts: Vec<u64> = vec![];
    let body = render_metrics(aggregate_players(&counts));
    assert_eq!(
        body,
        "# TYPE ss14_total_player_count gauge\nss14_total_player_count 0"
    );
}

#[test]
fn failed_directory_renders_an_empty_body() {
    assert_eq!(scrape_body(&None), "");
}

#[test]
fn fetched_directory_renders_the_total() {
    let counts: Vec<u64> = vec![3, 0, 7];
    assert_eq!(
        scrape_body(&Some(counts)),
        "# TYPE ss14_total_player_count gauge\nss14_total_player_count 10"
    );
}

#[test]
fn decimal_rendering_is_exact() {
    assert_eq!(u64_to_decimal(0), "0");
    assert_eq!(u64_to_decimal(7), "7");
    assert_eq!(u64_to_decimal(10), "10");
    assert_eq!(u64_to_decimal(1212), "1212");
    assert_eq!(u64_to_decimal(1000000), "1000000");
    assert_eq!(u64_to_decimal(u64::MAX), "18446744073709551615");
}
