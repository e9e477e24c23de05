use user_pipeline::fanout::images_in_input_order;
use user_pipeline::fanout::Completion;
use user_pipeline::gate::Stream;
use user_pipeline::imaging::normalize;
use user_pipeline::models::FetchError;
use user_pipeline::models::GitHubUser;
use user_pipeline::models::Repo;
use user_pipeline::models::SearchUser;
use user_pipeline::viewmodel::apply_repos;
use user_pipeline::viewmodel::build_detail_error;
use user_pipeline::viewmodel::build_detail_snapshot;
use user_pipeline::viewmodel::build_list_error;
use user_pipeline::viewmodel::build_list_snapshot;
use user_pipeline::viewmodel::DetailViewModel;
use user_pipeline::viewmodel::ListViewModel;

/// A tiny valid image in the binary PPM format: `w` by `h` pixels of RGB
/// data, which the decoder detects from the `P6` magic bytes.
fn ppm(w: u32, h: u32, rgb: &[u8]) -> Vec<u8> {
    let mut out: Vec<u8> = Vec::new();
    out.extend_from_slice(format!("P6\n{} {}\n255\n", w, h).as_bytes());
    out.extend_from_slice(rgb);
    out
}

fn red_square_2x2() -> Vec<u8> {
    ppm(2, 2, &[255, 0, 0, 255, 0, 0, 255, 0, 0, 255, 0, 0])
}

#[test]
fn normalize_yields_exact_target_dimensions() {
    let bytes = red_square_2x2();
    for size in [1u32, 2, 3, 4, 80] {
        let img = normalize(&bytes, size).expect("valid image must decode");
        assert_eq!(img.width, size);
        assert_eq!(img.height, size);
        assert_eq!(img.pixels.len(), (4 * size * size) as usize);
    }
}

#[test]
fn normalize_is_idempotent_on_same_input() {
    let bytes = red_square_2x2();
    let a = normalize(&bytes, 4).expect("valid image must decode");
    let b = normalize(&bytes, 4).expect("valid image must decode");
    assert_eq!(a.pixels, b.pixels);
    assert_eq!(a.width, b.width);
    assert_eq!(a.height, b.height);
}

#[test]
fn normalize_keeps_pixel_content() {
    let bytes = red_square_2x2();
    let img = normalize(&bytes, 2).expect("valid image must decode");
    // A uniform red source stays uniform red with opaque alpha.
    for px in img.pixels.chunks(4) {
        assert_eq!(px, &[255, 0, 0, 255]);
    }
}

#[test]
fn normalize_rejects_undecodable_bytes() {
    assert!(normalize(&[0u8, 1, 2, 3], 4).is_none());
    assert!(normalize(&[], 4).is_none());
}

#[test]
fn normalize_refuses_oversized_source_blocks() {
    // A 256 by 256 source shrunk to one pixel would sum a block of more
    // than 65536 pixels per channel; that is refused, while a target of 2
    // keeps the blocks small enough.
    let big = ppm(256, 256, &vec![200u8; 256 * 256 * 3]);
    assert!(normalize(&big, 1).is_none());
    let img = normalize(&big, 2).expect("small enough blocks must resample");
    assert_eq!(img.width, 2);
    assert_eq!(img.height, 2);
}

#[test]
fn fanout_preserves_length_and_positions() {
    // Completions arrive out of input order; one element failed in
    // transport, one carries undecodable bytes.
    let completions = vec![
        Completion { index: 2, payload: Some(red_square_2x2()) },
        Completion { index: 0, payload: None },
        Completion { index: 1, payload: Some(vec![9, 9, 9]) },
        Completion { index: 3, payload: Some(red_square_2x2()) },
    ];
    let r = images_in_input_order(4, &completions, 8);
    assert_eq!(r.len(), 4);
    assert!(r[0].is_none());
    assert!(r[1].is_none());
    assert!(r[2].is_some());
    assert!(r[3].is_some());
}

#[test]
fn fanout_output_independent_of_completion_order() {
    let a = vec![
        Completion { index: 0, payload: Some(red_square_2x2()) },
        Completion { index: 1, payload: None },
        Completion { index: 2, payload: Some(red_square_2x2()) },
    ];
    let b = vec![
        Completion { index: 2, payload: Some(red_square_2x2()) },
        Completion { index: 0, payload: Some(red_square_2x2()) },
        Completion { index: 1, payload: None },
    ];
    let ra = images_in_input_order(3, &a, 4);
    let rb = images_in_input_order(3, &b, 4);
    assert_eq!(ra.len(), rb.len());
    for i in 0..3 {
        match (&ra[i], &rb[i]) {
            (None, None) => {}
            (Some(x), Some(y)) => {
                assert_eq!(x.pixels, y.pixels);
                assert_eq!(x.width, y.width);
                assert_eq!(x.height, y.height);
            }
            _ => panic!("slot {} differs between completion orders", i),
        }
    }
}

#[test]
fn gate_drops_superseded_generation() {
    let mut s: Stream<u32> = Stream::new();
    let g1 = s.begin();
    let g2 = s.begin();
    assert_eq!(g1, 1);
    assert_eq!(g2, 2);
    // The earlier request finishes last: its publish is dropped.
    assert!(s.try_publish(g2, 22));
    assert!(!s.try_publish(g1, 11));
    match s.published {
        Some((g, v)) => {
            assert_eq!(g, g2);
            assert_eq!(v, 22);
        }
        None => panic!("the current generation must publish"),
    }
}

#[test]
fn gate_rapid_research_publishes_only_newest() {
    // Query "a" is issued, then "b" before "a" resolves; "a" resolves last.
    let mut s: Stream<String> = Stream::new();
    let g_a = s.begin();
    let g_b = s.begin();
    assert!(s.try_publish(g_b, String::from("results for b")));
    assert!(!s.try_publish(g_a, String::from("results for a")));
    let (_, shown) = s.published.as_ref().expect("b must be published");
    assert_eq!(shown, "results for b");
}

fn search_user(login: &str) -> SearchUser {
    SearchUser {
        login: String::from(login),
        id: 1,
        avatar_url: String::from("https://example.com/a.png"),
    }
}

#[test]
fn search_scenario_failed_avatar_keeps_position() {
    // Query "tor": three users come back; the second user's avatar fetch
    // failed (404), so its completion carries no payload.
    let users = vec![search_user("tor"), search_user("torvalds"), search_user("tored")];
    let completions = vec![
        Completion { index: 1, payload: None },
        Completion { index: 0, payload: Some(red_square_2x2()) },
        Completion { index: 2, payload: Some(red_square_2x2()) },
    ];
    let images = images_in_input_order(3, &completions, 8);
    let vm: ListViewModel = build_list_snapshot(users, images);
    assert_eq!(vm.entries.len(), 3);
    assert_eq!(vm.entries[0].login, "tor");
    assert_eq!(vm.entries[1].login, "torvalds");
    assert_eq!(vm.entries[2].login, "tored");
    assert!(vm.entries[0].avatar.is_some());
    assert!(vm.entries[1].avatar.is_none());
    assert!(vm.entries[2].avatar.is_some());
    assert_eq!(vm.error, "");
    assert!(!vm.searching);
}

#[test]
fn search_error_snapshot_is_visible_and_clears_indicator() {
    let vm = build_list_error(&FetchError::Remote {
        status: 500,
        body: String::from("boom"),
    });
    assert!(vm.entries.is_empty());
    assert_eq!(vm.error, "Error: service returned status 500: boom");
    assert!(!vm.searching);
}

fn sample_user() -> GitHubUser {
    GitHubUser {
        login: String::from("octocat"),
        id: 583231,
        avatar_url: String::from("https://example.com/octo.png"),
        html_url: String::from("https://github.com/octocat"),
        name: Some(String::from("The Octocat")),
        bio: None,
        public_repos: 8,
        followers: 3000,
        following: 9,
        created_at: String::from("2011-01-25T18:44:36Z"),
    }
}

#[test]
fn detail_scenario_failing_sub_records_degrade_silently() {
    // A valid user whose repository endpoint returns a 500: the detail view
    // stays populated, the repository list is empty, no error is shown.
    let bytes = red_square_2x2();
    let avatar = normalize(&bytes, 8);
    let vm = build_detail_snapshot(sample_user(), avatar);
    assert_eq!(vm.login, "octocat");
    assert_eq!(vm.display_name, "The Octocat");
    assert_eq!(vm.bio, "");
    assert_eq!(vm.public_repos, 8);
    assert_eq!(vm.followers, 3000);
    assert_eq!(vm.following, 9);
    assert!(vm.avatar.is_some());
    assert!(vm.loading_repos);
    assert!(!vm.loading);

    let failed: Result<Vec<Repo>, FetchError> = Err(FetchError::Remote {
        status: 500,
        body: String::from("oops"),
    });
    let vm2: DetailViewModel = apply_repos(vm, failed);
    assert_eq!(vm2.login, "octocat");
    assert_eq!(vm2.display_name, "The Octocat");
    assert!(vm2.repo_list.is_empty());
    assert!(!vm2.loading_repos);
    assert_eq!(vm2.error, "");
}

#[test]
fn apply_repos_shows_fetched_list_in_order() {
    let vm = build_detail_snapshot(sample_user(), None);
    let repos = vec![
        Repo {
            name: String::from("zeta"),
            description: Some(String::from("last alphabetically, first returned")),
            language: Some(String::from("Rust")),
            stargazers_count: 41,
            html_url: String::from("https://github.com/octocat/zeta"),
        },
        Repo {
            name: String::from("alpha"),
            description: None,
            language: None,
            stargazers_count: 7,
            html_url: String::from("https://github.com/octocat/alpha"),
        },
    ];
    let vm2 = apply_repos(vm, Ok(repos));
    assert_eq!(vm2.repo_list.len(), 2);
    assert_eq!(vm2.repo_list[0].name, "zeta");
    assert_eq!(vm2.repo_list[1].name, "alpha");
    assert!(!vm2.loading_repos);
}

#[test]
fn record_not_found_shows_error_and_clears_loading() {
    let vm = build_detail_error(&FetchError::Remote {
        status: 404,
        body: String::from("Not Found"),
    });
    assert_eq!(vm.error, "Error: service returned status 404: Not Found");
    assert!(!vm.error.is_empty());
    assert!(!vm.loading);
    assert!(!vm.loading_repos);
    assert!(vm.repo_list.is_empty());
}

#[test]
fn transport_and_decode_errors_have_visible_messages() {
    let t = build_list_error(&FetchError::Transport);
    assert_eq!(t.error, "Error: failed to reach the service");
    let d = build_list_error(&FetchError::Decode);
    assert_eq!(d.error, "Error: failed to decode the response");
}

#[test]
fn detail_stream_two_stage_publish() {
    let mut s: Stream<DetailViewModel> = Stream::new();
    let g = s.begin();
    let vm = build_detail_snapshot(sample_user(), None);
    assert!(s.try_publish(g, vm));
    // The repository stage lands later under the same generation.
    let ok = s.try_publish_repos(
        g,
        Err(FetchError::Remote { status: 500, body: String::from("oops") }),
    );
    assert!(ok);
    let (pg, shown) = s.published.as_ref().expect("detail must stay published");
    assert_eq!(*pg, g);
    assert_eq!(shown.login, "octocat");
    assert!(shown.repo_list.is_empty());
    assert!(!shown.loading_repos);
    assert_eq!(shown.error, "");
}

#[test]
fn detail_stream_drops_stale_repo_stage() {
    let mut s: Stream<DetailViewModel> = Stream::new();
    let g1 = s.begin();
    let vm1 = build_detail_snapshot(sample_user(), None);
    assert!(s.try_publish(g1, vm1));
    // A new selection supersedes the first before its repos arrive.
    let g2 = s.begin();
    let ok = s.try_publish_repos(g1, Ok(Vec::new()));
    assert!(!ok);
    let (pg, shown) = s.published.as_ref().expect("first detail still shown");
    assert_eq!(*pg, g1);
    // The superseded stage changed nothing: the list still loads.
    assert!(shown.loading_repos);
    assert_eq!(s.accepted, g2);
}
