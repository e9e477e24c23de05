use vstd::prelude::*;
use vstd::string::StringExecFns;

use crate::client::dec_digits;
use crate::client::push_dec_digits;
use crate::gate::Stream;
use crate::gate::stream_wf;
use crate::imaging::NormalizedImage;
use crate::models::FetchError;
use crate::models::GitHubUser;
use crate::models::Repo;
use crate::models::SearchUser;

verus! {

/// One row of the list view: the login name and, when the avatar could be
/// fetched and decoded, its thumbnail.
pub struct ListEntry {
    pub login: String,
    pub avatar: Option<NormalizedImage>,
}

/// The complete, immutable snapshot the list page shows. It is only ever
/// replaced wholesale, never patched in place.
pub struct ListViewModel {
    pub entries: Vec<ListEntry>,
    pub error: String,
    pub searching: bool,
}

/// The complete, immutable snapshot the detail page shows. The repository
/// list arrives in a second stage; until then `loading_repos` holds.
pub struct DetailViewModel {
    pub login: String,
    pub display_name: String,
    pub bio: String,
    pub public_repos: u32,
    pub followers: u32,
    pub following: u32,
    pub profile_url: String,
    pub created_at: String,
    pub avatar: Option<NormalizedImage>,
    pub repo_list: Vec<Repo>,
    pub loading_repos: bool,
    pub loading: bool,
    pub error: String,
}

/// The characters of an optional string; absent means empty.
pub open spec fn opt_string_view(o: Option<String>) -> Seq<char> {
    match o {
        Some(s) => s@,
        None => Seq::empty(),
    }
}

/// The user-visible message for each failure: transport and decode failures
/// have fixed texts, a remote failure names the status and carries the body.
pub open spec fn error_message_spec(e: FetchError) -> Seq<char> {
    match e {
        FetchError::Transport => "Error: failed to reach the service"@,
        FetchError::Remote { status, body } => "Error: service returned status "@ + dec_digits(
            status as nat,
        ) + ": "@ + body@,
        FetchError::Decode => "Error: failed to decode the response"@,
    }
}

/// Renders the user-visible message for a failure. The message is never
/// empty: a failed request always surfaces visibly.
pub fn error_message(e: &FetchError) -> (r: String)
    ensures
        r@ == error_message_spec(*e),
        r@.len() > 0,
{
    match e {
        FetchError::Transport => {
            let r = String::from_str("Error: failed to reach the service");
            proof {
                reveal_strlit("Error: failed to reach the service");
            }
            r
        },
        FetchError::Remote { status, body } => {
            let mut r = String::new();
            r.append("Error: service returned status ");
            push_dec_digits(&mut r, *status as u32);
            r.append(": ");
            r.append(body.as_str());
            proof {
                reveal_strlit("Error: service returned status ");
                assert(r@ =~= error_message_spec(*e));
            }
            r
        },
        FetchError::Decode => {
            let r = String::from_str("Error: failed to decode the response");
            proof {
                reveal_strlit("Error: failed to decode the response");
            }
            r
        },
    }
}

/// Builds the list snapshot from a successful search: the users zipped with
/// their thumbnails, both in the order the service returned the users; every
/// entry keeps its position whether or not its avatar resolved. No error is
/// shown and the searching indicator is cleared.
pub fn build_list_snapshot(users: Vec<SearchUser>, images: Vec<Option<NormalizedImage>>) -> (vm:
    ListViewModel)
    requires
        users@.len() == images@.len(),
    ensures
        vm.entries@.len() == users@.len(),
        forall|j: int|
            0 <= j < users@.len() ==> (#[trigger] vm.entries@[j]).login == users@[j].login
                && vm.entries@[j].avatar == images@[j],
        vm.error@.len() == 0,
        !vm.searching,
{
    let ghost u0: Seq<SearchUser> = users@;
    let ghost i0: Seq<Option<NormalizedImage>> = images@;
    let mut users = users;
    let mut images = images;
    let mut entries: Vec<ListEntry> = Vec::new();
    while users.len() > 0
        invariant
            users@.len() == images@.len(),
            entries@.len() + users@.len() == u0.len(),
            u0.len() == i0.len(),
            users@ == u0.skip(entries@.len() as int),
            images@ == i0.skip(entries@.len() as int),
            forall|j: int|
                0 <= j < entries@.len() ==> (#[trigger] entries@[j]).login == u0[j].login
                    && entries@[j].avatar == i0[j],
        decreases users@.len(),
    {
        let ghost done: int = entries@.len() as int;
        let u = users.remove(0);
        let img = images.remove(0);
        proof {
            assert(u == u0[done]);
            assert(img == i0[done]);
            assert(users@ =~= u0.skip(done + 1));
            assert(images@ =~= i0.skip(done + 1));
        }
        entries.push(ListEntry { login: u.login, avatar: img });
    }
    ListViewModel { entries, error: String::new(), searching: false }
}

/// Builds the error snapshot for a failed search: an empty list, the visible
/// message for the failure, and the searching indicator cleared.
pub fn build_list_error(err: &FetchError) -> (vm: ListViewModel)
    ensures
        vm.entries@.len() == 0,
        vm.error@ == error_message_spec(*err),
        vm.error@.len() > 0,
        !vm.searching,
{
    ListViewModel { entries: Vec::new(), error: error_message(err), searching: false }
}

/// Builds the first-stage detail snapshot from a fetched record and its
/// normalized avatar: all profile fields filled (absent optional fields
/// shown empty), the repository list still loading and empty, the loading
/// indicator cleared and no error shown.
pub fn build_detail_snapshot(user: GitHubUser, avatar: Option<NormalizedImage>) -> (vm:
    DetailViewModel)
    ensures
        vm.login == user.login,
        vm.display_name@ == opt_string_view(user.name),
        vm.bio@ == opt_string_view(user.bio),
        vm.public_repos == user.public_repos,
        vm.followers == user.followers,
        vm.following == user.following,
        vm.profile_url == user.html_url,
        vm.created_at == user.created_at,
        vm.avatar == avatar,
        vm.repo_list@.len() == 0,
        vm.loading_repos,
        !vm.loading,
        vm.error@.len() == 0,
{
    let display_name: String = match user.name {
        Some(n) => n,
        None => String::new(),
    };
    let bio: String = match user.bio {
        Some(b) => b,
        None => String::new(),
    };
    DetailViewModel {
        login: user.login,
        display_name,
        bio,
        public_repos: user.public_repos,
        followers: user.followers,
        following: user.following,
        profile_url: user.html_url,
        created_at: user.created_at,
        avatar,
        repo_list: Vec::new(),
        loading_repos: true,
        loading: false,
        error: String::new(),
    }
}

/// Builds the error snapshot for a failed record fetch: the visible message
/// for the failure, every loading indicator cleared, and no stale profile
/// data or repositories shown. Both dependent steps are skipped.
pub fn build_detail_error(err: &FetchError) -> (vm: DetailViewModel)
    ensures
        vm.error@ == error_message_spec(*err),
        vm.error@.len() > 0,
        !vm.loading,
        !vm.loading_repos,
        vm.login@.len() == 0,
        vm.repo_list@.len() == 0,
        vm.avatar is None,
{
    DetailViewModel {
        login: String::new(),
        display_name: String::new(),
        bio: String::new(),
        public_repos: 0,
        followers: 0,
        following: 0,
        profile_url: String::new(),
        created_at: String::new(),
        avatar: None,
        repo_list: Vec::new(),
        loading_repos: false,
        loading: false,
        error: error_message(err),
    }
}

/// Everything of a detail snapshot except the repository list and its
/// loading flag is the same in `pre` and `post`.
pub open spec fn detail_fields_unchanged(pre: DetailViewModel, post: DetailViewModel) -> bool {
    &&& post.login == pre.login
    &&& post.display_name == pre.display_name
    &&& post.bio == pre.bio
    &&& post.public_repos == pre.public_repos
    &&& post.followers == pre.followers
    &&& post.following == pre.following
    &&& post.profile_url == pre.profile_url
    &&& post.created_at == pre.created_at
    &&& post.avatar == pre.avatar
    &&& post.loading == pre.loading
    &&& post.error == pre.error
}

/// The second-stage result was folded in: a fetched repository list is shown
/// as returned, a failed one degrades to an empty list with no visible
/// error; either way the list's loading indicator is cleared and every other
/// field is untouched.
pub open spec fn repos_applied(
    pre: DetailViewModel,
    post: DetailViewModel,
    result: Result<Vec<Repo>, FetchError>,
) -> bool {
    &&& !post.loading_repos
    &&& match result {
        Ok(rs) => post.repo_list == rs,
        Err(_) => post.repo_list@.len() == 0,
    }
    &&& detail_fields_unchanged(pre, post)
}

/// Folds the repository-list result into a detail snapshot. A failure is
/// non-fatal: it degrades to an empty list, clears the list's loading
/// indicator and surfaces no error.
pub fn apply_repos(vm: DetailViewModel, result: Result<Vec<Repo>, FetchError>) -> (r:
    DetailViewModel)
    ensures
        repos_applied(vm, r, result),
{
    let repo_list: Vec<Repo> = match result {
        Ok(rs) => rs,
        Err(_) => Vec::new(),
    };
    DetailViewModel { repo_list, loading_repos: false, ..vm }
}

/// The repository stage may land on this stream: the carried generation is
/// still accepted and the first-stage snapshot it belongs to stands
/// published under that same generation.
pub open spec fn repos_stage_applies(pre: Stream<DetailViewModel>, g: u64) -> bool {
    &&& g == pre.accepted
    &&& pre.published matches Some(p) && p.0 == g
}

impl Stream<DetailViewModel> {
    /// Second stage of the detail publish: replaces the published detail
    /// snapshot wholesale with one that has the repository result folded in
    /// — but only when generation `g` is still accepted and the published
    /// snapshot was produced under it. A superseded or orphaned stage is
    /// silently dropped.
    pub fn try_publish_repos(&mut self, g: u64, result: Result<Vec<Repo>, FetchError>) -> (ok:
        bool)
        requires
            stream_wf(*old(self)),
        ensures
            stream_wf(*final(self)),
            final(self).accepted == old(self).accepted,
            ok == repos_stage_applies(*old(self), g),
            ok ==> (old(self).published matches Some(p) && final(self).published matches Some(q)
                && q.0 == g && repos_applied(p.1, q.1, result)),
            !ok ==> final(self).published == old(self).published,
    {
        let mut slot: Option<(u64, DetailViewModel)> = None;
        core::mem::swap(&mut self.published, &mut slot);
        match slot {
            Some(p) => {
                let (pg, vm) = p;
                if g == self.accepted && pg == g {
                    let vm2 = apply_repos(vm, result);
                    self.published = Some((g, vm2));
                    true
                } else {
                    self.published = Some((pg, vm));
                    false
                }
            },
            None => false,
        }
    }
}

} // verus!
