//! The static graph of endpoint states: which transitions each state
//! offers, what each transition appends to the URL, and which states a
//! request of a given method may be sent from.
use vstd::prelude::*;

verus! {

/// HTTP methods that requests are built for.
#[derive(Clone, Copy, Debug, PartialEq, Eq, Structural)]
pub enum Method {
    Get,
    Put,
    Post,
    Patch,
    Delete,
}

/// The four areas that the search endpoints cover.
#[derive(Clone, Copy, Debug, PartialEq, Eq, Structural)]
pub enum SearchArea {
    Repositories,
    Code,
    Issues,
    Users,
}

/// A state of the request builder: the endpoint reached so far.
#[derive(Clone, Copy, Debug, PartialEq, Eq, Structural)]
pub enum Node {
    Root,
    Custom,
    User,
    Users,
    Repos,
    Orgs,
    Teams,
    Gists,
    Notifications,
    Emojis,
    Events,
    Feeds,
    Meta,
    RateLimit,
    Search,
    UserRepos,
    UserFollowers,
    UserFollowing,
    UserStarred,
    UserEmails,
    UserKeys,
    UserIssues,
    UserOrgs,
    UserSubscriptions,
    UserBlocks,
    UserGpgKeys,
    UserMemberships,
    UserFollowingUser,
    UserStarredOwner,
    UserStarredOwnerRepo,
    UserKeysId,
    UserGpgKeysId,
    UserBlocksUser,
    UserMembershipsOrgs,
    UserMembershipsOrgsOrg,
    UsersUsername,
    UsersUsernameRepos,
    UsersUsernameFollowers,
    UsersUsernameFollowing,
    UsersUsernameEvents,
    UsersUsernameGists,
    UsersUsernameOrgs,
    UsersUsernameKeys,
    UsersUsernameStarred,
    UsersUsernameSubscriptions,
    UsersUsernameReceivedEvents,
    UsersUsernameReceivedEventsPublic,
    UsersUsernameGpgKeys,
    ReposOwner,
    ReposOwnerRepo,
    ReposOwnerRepoIssues,
    ReposOwnerRepoCommits,
    ReposOwnerRepoBranches,
    ReposOwnerRepoStatuses,
    ReposOwnerRepoStatusesSha,
    OrgsOrg,
    OrgsOrgRepos,
    OrgsOrgMembers,
    TeamsId,
    TeamsIdMembers,
    TeamsIdRepos,
    TeamsIdMemberships,
    TeamsIdInvitations,
    TeamsIdMembershipsUser,
    TeamsIdReposOwner,
    TeamsIdReposOwnerRepo,
    GistsId,
    GistsIdStar,
    GistsIdForks,
    GistsIdComments,
    GistsIdCommentsId,
    NotificationsThreads,
    NotificationsThreadsId,
    NotificationsThreadsIdSubscription,
    SearchIn(SearchArea),
    SearchQ(SearchArea),
    SearchSort(SearchArea),
    SearchOrder(SearchArea),
}

/// The name of a transition.
#[derive(Clone, Copy, Debug, PartialEq, Eq, Structural)]
pub enum Edge {
    User,
    Users,
    Repos,
    Orgs,
    Teams,
    Gists,
    Notifications,
    Emojis,
    Events,
    Feeds,
    Meta,
    RateLimit,
    Search,
    Followers,
    Following,
    Starred,
    Emails,
    Keys,
    Issues,
    Subscriptions,
    Blocks,
    GpgKeys,
    Memberships,
    ReceivedEvents,
    ReceivedEventsPublic,
    Commits,
    Branches,
    Statuses,
    Members,
    Invitations,
    Star,
    Forks,
    Comments,
    Threads,
    Subscription,
    Code,
    Repositories,
    Username,
    Owner,
    Repo,
    Org,
    Id,
    Sha,
    Q,
    Sort,
    Order,
}

/// What a transition appends to the URL.
#[derive(Clone, Copy, Debug, PartialEq, Eq, Structural)]
pub enum Fragment {
    /// A fixed path segment.
    Segment,
    /// A caller-supplied path segment, escaped.
    PathParam,
    /// A caller-supplied query value, escaped, under a fixed key.
    QueryParam,
}

pub open spec fn fragment_of(e: Edge) -> Fragment {
    match e {
        Edge::Username | Edge::Owner | Edge::Repo | Edge::Org | Edge::Id | Edge::Sha => Fragment::PathParam,
        Edge::Q | Edge::Sort | Edge::Order => Fragment::QueryParam,
        _ => Fragment::Segment,
    }
}

/// The kind of fragment that a transition appends.
pub fn fragment(e: Edge) -> (r: Fragment)
    ensures
        r == fragment_of(e),
{
    match e {
        Edge::Username | Edge::Owner | Edge::Repo | Edge::Org | Edge::Id | Edge::Sha => Fragment::PathParam,
        Edge::Q | Edge::Sort | Edge::Order => Fragment::QueryParam,
        _ => Fragment::Segment,
    }
}

/// The fixed text of a transition: the path segment, or the query key.
/// Path parameters have none.
pub open spec fn edge_text(e: Edge) -> Seq<char> {
    match e {
        Edge::User => "user"@,
        Edge::Users => "users"@,
        Edge::Repos => "repos"@,
        Edge::Orgs => "orgs"@,
        Edge::Teams => "teams"@,
        Edge::Gists => "gists"@,
        Edge::Notifications => "notifications"@,
        Edge::Emojis => "emojis"@,
        Edge::Events => "events"@,
        Edge::Feeds => "feeds"@,
        Edge::Meta => "meta"@,
        Edge::RateLimit => "rate_limit"@,
        Edge::Search => "search"@,
        Edge::Followers => "followers"@,
        Edge::Following => "following"@,
        Edge::Starred => "starred"@,
        Edge::Emails => "emails"@,
        Edge::Keys => "keys"@,
        Edge::Issues => "issues"@,
        Edge::Subscriptions => "subscriptions"@,
        Edge::Blocks => "blocks"@,
        Edge::GpgKeys => "gpg_keys"@,
        Edge::Memberships => "memberships"@,
        Edge::ReceivedEvents => "received_events"@,
        Edge::ReceivedEventsPublic => "received_events_public"@,
        Edge::Commits => "commits"@,
        Edge::Branches => "branches"@,
        Edge::Statuses => "statuses"@,
        Edge::Members => "members"@,
        Edge::Invitations => "invitations"@,
        Edge::Star => "star"@,
        Edge::Forks => "forks"@,
        Edge::Comments => "comments"@,
        Edge::Threads => "threads"@,
        Edge::Subscription => "subscription"@,
        Edge::Code => "code"@,
        Edge::Repositories => "repositories"@,
        Edge::Q => "q"@,
        Edge::Sort => "sort"@,
        Edge::Order => "order"@,
        _ => ""@,
    }
}

/// The fixed text of a transition.
pub fn text(e: Edge) -> (r: &'static str)
    ensures
        r@ == edge_text(e),
{
    match e {
        Edge::User => "user",
        Edge::Users => "users",
        Edge::Repos => "repos",
        Edge::Orgs => "orgs",
        Edge::Teams => "teams",
        Edge::Gists => "gists",
        Edge::Notifications => "notifications",
        Edge::Emojis => "emojis",
        Edge::Events => "events",
        Edge::Feeds => "feeds",
        Edge::Meta => "meta",
        Edge::RateLimit => "rate_limit",
        Edge::Search => "search",
        Edge::Followers => "followers",
        Edge::Following => "following",
        Edge::Starred => "starred",
        Edge::Emails => "emails",
        Edge::Keys => "keys",
        Edge::Issues => "issues",
        Edge::Subscriptions => "subscriptions",
        Edge::Blocks => "blocks",
        Edge::GpgKeys => "gpg_keys",
        Edge::Memberships => "memberships",
        Edge::ReceivedEvents => "received_events",
        Edge::ReceivedEventsPublic => "received_events_public",
        Edge::Commits => "commits",
        Edge::Branches => "branches",
        Edge::Statuses => "statuses",
        Edge::Members => "members",
        Edge::Invitations => "invitations",
        Edge::Star => "star",
        Edge::Forks => "forks",
        Edge::Comments => "comments",
        Edge::Threads => "threads",
        Edge::Subscription => "subscription",
        Edge::Code => "code",
        Edge::Repositories => "repositories",
        Edge::Q => "q",
        Edge::Sort => "sort",
        Edge::Order => "order",
        _ => "",
    }
}

/// The shape of the graph: the state that `e` leads to from `n`, or `None`
/// where `n` offers no such transition for any method.
pub open spec fn edge_target(n: Node, e: Edge) -> Option<Node> {
    match (n, e) {
        (Node::Root, Edge::User) => Some(Node::User),
        (Node::Root, Edge::Users) => Some(Node::Users),
        (Node::Root, Edge::Repos) => Some(Node::Repos),
        (Node::Root, Edge::Orgs) => Some(Node::Orgs),
        (Node::Root, Edge::Teams) => Some(Node::Teams),
        (Node::Root, Edge::Gists) => Some(Node::Gists),
        (Node::Root, Edge::Notifications) => Some(Node::Notifications),
        (Node::Root, Edge::Emojis) => Some(Node::Emojis),
        (Node::Root, Edge::Events) => Some(Node::Events),
        (Node::Root, Edge::Feeds) => Some(Node::Feeds),
        (Node::Root, Edge::Meta) => Some(Node::Meta),
        (Node::Root, Edge::RateLimit) => Some(Node::RateLimit),
        (Node::Root, Edge::Search) => Some(Node::Search),
        (Node::User, Edge::Repos) => Some(Node::UserRepos),
        (Node::User, Edge::Followers) => Some(Node::UserFollowers),
        (Node::User, Edge::Following) => Some(Node::UserFollowing),
        (Node::User, Edge::Starred) => Some(Node::UserStarred),
        (Node::User, Edge::Emails) => Some(Node::UserEmails),
        (Node::User, Edge::Keys) => Some(Node::UserKeys),
        (Node::User, Edge::Issues) => Some(Node::UserIssues),
        (Node::User, Edge::Orgs) => Some(Node::UserOrgs),
        (Node::User, Edge::Subscriptions) => Some(Node::UserSubscriptions),
        (Node::User, Edge::Blocks) => Some(Node::UserBlocks),
        (Node::User, Edge::GpgKeys) => Some(Node::UserGpgKeys),
        (Node::User, Edge::Memberships) => Some(Node::UserMemberships),
        (Node::UserFollowing, Edge::Username) => Some(Node::UserFollowingUser),
        (Node::UserStarred, Edge::Owner) => Some(Node::UserStarredOwner),
        (Node::UserStarredOwner, Edge::Repo) => Some(Node::UserStarredOwnerRepo),
        (Node::UserKeys, Edge::Id) => Some(Node::UserKeysId),
        (Node::UserGpgKeys, Edge::Id) => Some(Node::UserGpgKeysId),
        (Node::UserBlocks, Edge::Username) => Some(Node::UserBlocksUser),
        (Node::UserMemberships, Edge::Orgs) => Some(Node::UserMembershipsOrgs),
        (Node::UserMembershipsOrgs, Edge::Org) => Some(Node::UserMembershipsOrgsOrg),
        (Node::Users, Edge::Username) => Some(Node::UsersUsername),
        (Node::UsersUsername, Edge::Repos) => Some(Node::UsersUsernameRepos),
        (Node::UsersUsername, Edge::Followers) => Some(Node::UsersUsernameFollowers),
        (Node::UsersUsername, Edge::Following) => Some(Node::UsersUsernameFollowing),
        (Node::UsersUsername, Edge::Events) => Some(Node::UsersUsernameEvents),
        (Node::UsersUsername, Edge::Gists) => Some(Node::UsersUsernameGists),
        (Node::UsersUsername, Edge::Orgs) => Some(Node::UsersUsernameOrgs),
        (Node::UsersUsername, Edge::Keys) => Some(Node::UsersUsernameKeys),
        (Node::UsersUsername, Edge::Starred) => Some(Node::UsersUsernameStarred),
        (Node::UsersUsername, Edge::Subscriptions) => Some(Node::UsersUsernameSubscriptions),
        (Node::UsersUsername, Edge::ReceivedEvents) => Some(Node::UsersUsernameReceivedEvents),
        (Node::UsersUsername, Edge::ReceivedEventsPublic) => Some(Node::UsersUsernameReceivedEventsPublic),
        (Node::UsersUsername, Edge::GpgKeys) => Some(Node::UsersUsernameGpgKeys),
        (Node::Repos, Edge::Owner) => Some(Node::ReposOwner),
        (Node::ReposOwner, Edge::Repo) => Some(Node::ReposOwnerRepo),
        (Node::ReposOwnerRepo, Edge::Issues) => Some(Node::ReposOwnerRepoIssues),
        (Node::ReposOwnerRepo, Edge::Commits) => Some(Node::ReposOwnerRepoCommits),
        (Node::ReposOwnerRepo, Edge::Branches) => Some(Node::ReposOwnerRepoBranches),
        (Node::ReposOwnerRepo, Edge::Statuses) => Some(Node::ReposOwnerRepoStatuses),
        (Node::ReposOwnerRepoStatuses, Edge::Sha) => Some(Node::ReposOwnerRepoStatusesSha),
        (Node::Orgs, Edge::Org) => Some(Node::OrgsOrg),
        (Node::OrgsOrg, Edge::Repos) => Some(Node::OrgsOrgRepos),
        (Node::OrgsOrg, Edge::Members) => Some(Node::OrgsOrgMembers),
        (Node::Teams, Edge::Id) => Some(Node::TeamsId),
        (Node::TeamsId, Edge::Members) => Some(Node::TeamsIdMembers),
        (Node::TeamsId, Edge::Repos) => Some(Node::TeamsIdRepos),
        (Node::TeamsId, Edge::Memberships) => Some(Node::TeamsIdMemberships),
        (Node::TeamsId, Edge::Invitations) => Some(Node::TeamsIdInvitations),
        (Node::TeamsIdMemberships, Edge::Username) => Some(Node::TeamsIdMembershipsUser),
        (Node::TeamsIdRepos, Edge::Owner) => Some(Node::TeamsIdReposOwner),
        (Node::TeamsIdReposOwner, Edge::Repo) => Some(Node::TeamsIdReposOwnerRepo),
        (Node::Gists, Edge::Id) => Some(Node::GistsId),
        (Node::GistsId, Edge::Star) => Some(Node::GistsIdStar),
        (Node::GistsId, Edge::Forks) => Some(Node::GistsIdForks),
        (Node::GistsId, Edge::Comments) => Some(Node::GistsIdComments),
        (Node::GistsIdComments, Edge::Id) => Some(Node::GistsIdCommentsId),
        (Node::Notifications, Edge::Threads) => Some(Node::NotificationsThreads),
        (Node::NotificationsThreads, Edge::Id) => Some(Node::NotificationsThreadsId),
        (Node::NotificationsThreadsId, Edge::Subscription) => Some(Node::NotificationsThreadsIdSubscription),
        (Node::Search, Edge::Repositories) => Some(Node::SearchIn(SearchArea::Repositories)),
        (Node::Search, Edge::Code) => Some(Node::SearchIn(SearchArea::Code)),
        (Node::Search, Edge::Issues) => Some(Node::SearchIn(SearchArea::Issues)),
        (Node::Search, Edge::Users) => Some(Node::SearchIn(SearchArea::Users)),
        (Node::SearchIn(a), Edge::Q) => Some(Node::SearchQ(a)),
        (Node::SearchQ(a), Edge::Sort) => Some(Node::SearchSort(a)),
        (Node::SearchSort(a), Edge::Order) => Some(Node::SearchOrder(a)),
        _ => None,
    }
}

fn target(n: Node, e: Edge) -> (r: Option<Node>)
    ensures
        r == edge_target(n, e),
{
    match (n, e) {
        (Node::Root, Edge::User) => Some(Node::User),
        (Node::Root, Edge::Users) => Some(Node::Users),
        (Node::Root, Edge::Repos) => Some(Node::Repos),
        (Node::Root, Edge::Orgs) => Some(Node::Orgs),
        (Node::Root, Edge::Teams) => Some(Node::Teams),
        (Node::Root, Edge::Gists) => Some(Node::Gists),
        (Node::Root, Edge::Notifications) => Some(Node::Notifications),
        (Node::Root, Edge::Emojis) => Some(Node::Emojis),
        (Node::Root, Edge::Events) => Some(Node::Events),
        (Node::Root, Edge::Feeds) => Some(Node::Feeds),
        (Node::Root, Edge::Meta) => Some(Node::Meta),
        (Node::Root, Edge::RateLimit) => Some(Node::RateLimit),
        (Node::Root, Edge::Search) => Some(Node::Search),
        (Node::User, Edge::Repos) => Some(Node::UserRepos),
        (Node::User, Edge::Followers) => Some(Node::UserFollowers),
        (Node::User, Edge::Following) => Some(Node::UserFollowing),
        (Node::User, Edge::Starred) => Some(Node::UserStarred),
        (Node::User, Edge::Emails) => Some(Node::UserEmails),
        (Node::User, Edge::Keys) => Some(Node::UserKeys),
        (Node::User, Edge::Issues) => Some(Node::UserIssues),
        (Node::User, Edge::Orgs) => Some(Node::UserOrgs),
        (Node::User, Edge::Subscriptions) => Some(Node::UserSubscriptions),
        (Node::User, Edge::Blocks) => Some(Node::UserBlocks),
        (Node::User, Edge::GpgKeys) => Some(Node::UserGpgKeys),
        (Node::User, Edge::Memberships) => Some(Node::UserMemberships),
        (Node::UserFollowing, Edge::Username) => Some(Node::UserFollowingUser),
        (Node::UserStarred, Edge::Owner) => Some(Node::UserStarredOwner),
        (Node::UserStarredOwner, Edge::Repo) => Some(Node::UserStarredOwnerRepo),
        (Node::UserKeys, Edge::Id) => Some(Node::UserKeysId),
        (Node::UserGpgKeys, Edge::Id) => Some(Node::UserGpgKeysId),
        (Node::UserBlocks, Edge::Username) => Some(Node::UserBlocksUser),
        (Node::UserMemberships, Edge::Orgs) => Some(Node::UserMembershipsOrgs),
        (Node::UserMembershipsOrgs, Edge::Org) => Some(Node::UserMembershipsOrgsOrg),
        (Node::Users, Edge::Username) => Some(Node::UsersUsername),
        (Node::UsersUsername, Edge::Repos) => Some(Node::UsersUsernameRepos),
        (Node::UsersUsername, Edge::Followers) => Some(Node::UsersUsernameFollowers),
        (Node::UsersUsername, Edge::Following) => Some(Node::UsersUsernameFollowing),
        (Node::UsersUsername, Edge::Events) => Some(Node::UsersUsernameEvents),
        (Node::UsersUsername, Edge::Gists) => Some(Node::UsersUsernameGists),
        (Node::UsersUsername, Edge::Orgs) => Some(Node::UsersUsernameOrgs),
        (Node::UsersUsername, Edge::Keys) => Some(Node::UsersUsernameKeys),
        (Node::UsersUsername, Edge::Starred) => Some(Node::UsersUsernameStarred),
        (Node::UsersUsername, Edge::Subscriptions) => Some(Node::UsersUsernameSubscriptions),
        (Node::UsersUsername, Edge::ReceivedEvents) => Some(Node::UsersUsernameReceivedEvents),
        (Node::UsersUsername, Edge::ReceivedEventsPublic) => Some(Node::UsersUsernameReceivedEventsPublic),
        (Node::UsersUsername, Edge::GpgKeys) => Some(Node::UsersUsernameGpgKeys),
        (Node::Repos, Edge::Owner) => Some(Node::ReposOwner),
        (Node::ReposOwner, Edge::Repo) => Some(Node::ReposOwnerRepo),
        (Node::ReposOwnerRepo, Edge::Issues) => Some(Node::ReposOwnerRepoIssues),
        (Node::ReposOwnerRepo, Edge::Commits) => Some(Node::ReposOwnerRepoCommits),
        (Node::ReposOwnerRepo, Edge::Branches) => Some(Node::ReposOwnerRepoBranches),
        (Node::ReposOwnerRepo, Edge::Statuses) => Some(Node::ReposOwnerRepoStatuses),
        (Node::ReposOwnerRepoStatuses, Edge::Sha) => Some(Node::ReposOwnerRepoStatusesSha),
        (Node::Orgs, Edge::Org) => Some(Node::OrgsOrg),
        (Node::OrgsOrg, Edge::Repos) => Some(Node::OrgsOrgRepos),
        (Node::OrgsOrg, Edge::Members) => Some(Node::OrgsOrgMembers),
        (Node::Teams, Edge::Id) => Some(Node::TeamsId),
        (Node::TeamsId, Edge::Members) => Some(Node::TeamsIdMembers),
        (Node::TeamsId, Edge::Repos) => Some(Node::TeamsIdRepos),
        (Node::TeamsId, Edge::Memberships) => Some(Node::TeamsIdMemberships),
        (Node::TeamsId, Edge::Invitations) => Some(Node::TeamsIdInvitations),
        (Node::TeamsIdMemberships, Edge::Username) => Some(Node::TeamsIdMembershipsUser),
        (Node::TeamsIdRepos, Edge::Owner) => Some(Node::TeamsIdReposOwner),
        (Node::TeamsIdReposOwner, Edge::Repo) => Some(Node::TeamsIdReposOwnerRepo),
        (Node::Gists, Edge::Id) => Some(Node::GistsId),
        (Node::GistsId, Edge::Star) => Some(Node::GistsIdStar),
        (Node::GistsId, Edge::Forks) => Some(Node::GistsIdForks),
        (Node::GistsId, Edge::Comments) => Some(Node::GistsIdComments),
        (Node::GistsIdComments, Edge::Id) => Some(Node::GistsIdCommentsId),
        (Node::Notifications, Edge::Threads) => Some(Node::NotificationsThreads),
        (Node::NotificationsThreads, Edge::Id) => Some(Node::NotificationsThreadsId),
        (Node::NotificationsThreadsId, Edge::Subscription) => Some(Node::NotificationsThreadsIdSubscription),
        (Node::Search, Edge::Repositories) => Some(Node::SearchIn(SearchArea::Repositories)),
        (Node::Search, Edge::Code) => Some(Node::SearchIn(SearchArea::Code)),
        (Node::Search, Edge::Issues) => Some(Node::SearchIn(SearchArea::Issues)),
        (Node::Search, Edge::Users) => Some(Node::SearchIn(SearchArea::Users)),
        (Node::SearchIn(a), Edge::Q) => Some(Node::SearchQ(a)),
        (Node::SearchQ(a), Edge::Sort) => Some(Node::SearchSort(a)),
        (Node::SearchSort(a), Edge::Order) => Some(Node::SearchOrder(a)),
        _ => None,
    }
}

/// The terminal states: those from which a request of method `m` may be
/// sent. A custom endpoint is terminal for every method.
pub open spec fn is_endpoint(m: Method, n: Node) -> bool {
    match m {
        Method::Get => match n {
            Node::Custom | Node::User | Node::Users | Node::Gists | Node::Notifications |
            Node::Emojis | Node::Events | Node::Feeds | Node::Meta | Node::RateLimit |
            Node::UserRepos | Node::UserFollowers | Node::UserFollowing | Node::UserStarred |
            Node::UserEmails | Node::UserKeys | Node::UserIssues | Node::UserOrgs |
            Node::UserSubscriptions | Node::UserBlocks | Node::UserGpgKeys |
            Node::UserFollowingUser | Node::UserStarredOwner | Node::UserStarredOwnerRepo |
            Node::UserKeysId | Node::UserGpgKeysId | Node::UserBlocksUser |
            Node::UserMembershipsOrgs | Node::UserMembershipsOrgsOrg | Node::UsersUsername |
            Node::UsersUsernameRepos | Node::UsersUsernameFollowers |
            Node::UsersUsernameFollowing | Node::UsersUsernameEvents | Node::UsersUsernameGists |
            Node::UsersUsernameOrgs | Node::UsersUsernameKeys | Node::UsersUsernameStarred |
            Node::UsersUsernameSubscriptions | Node::UsersUsernameReceivedEvents |
            Node::UsersUsernameReceivedEventsPublic | Node::UsersUsernameGpgKeys |
            Node::ReposOwnerRepo | Node::ReposOwnerRepoIssues | Node::ReposOwnerRepoCommits |
            Node::ReposOwnerRepoBranches | Node::ReposOwnerRepoStatusesSha | Node::OrgsOrg |
            Node::OrgsOrgRepos | Node::OrgsOrgMembers | Node::TeamsId | Node::TeamsIdMembers |
            Node::TeamsIdRepos | Node::TeamsIdMemberships | Node::TeamsIdInvitations |
            Node::TeamsIdMembershipsUser | Node::TeamsIdReposOwner |
            Node::TeamsIdReposOwnerRepo | Node::GistsId | Node::GistsIdStar |
            Node::GistsIdForks | Node::GistsIdComments | Node::GistsIdCommentsId |
            Node::NotificationsThreadsId | Node::NotificationsThreadsIdSubscription |
            Node::SearchQ(_) | Node::SearchSort(_) | Node::SearchOrder(_) => true,
            _ => false,
        },
        Method::Put => match n {
            Node::Custom | Node::UserFollowingUser | Node::UserStarredOwnerRepo |
            Node::GistsIdStar | Node::Notifications | Node::TeamsIdMembershipsUser |
            Node::TeamsIdReposOwnerRepo | Node::NotificationsThreadsIdSubscription => true,
            _ => false,
        },
        Method::Post => match n {
            Node::Custom | Node::UserRepos | Node::UserKeys | Node::UserGpgKeys |
            Node::UserEmails | Node::Gists | Node::GistsIdForks | Node::GistsIdComments |
            Node::ReposOwnerRepoIssues | Node::ReposOwnerRepoStatusesSha | Node::OrgsOrgRepos => true,
            _ => false,
        },
        Method::Patch => match n {
            Node::Custom | Node::User | Node::GistsId | Node::ReposOwnerRepo | Node::TeamsId |
            Node::NotificationsThreadsId => true,
            _ => false,
        },
        Method::Delete => match n {
            Node::Custom | Node::UserFollowingUser | Node::UserStarredOwnerRepo |
            Node::UserKeysId | Node::UserGpgKeysId | Node::UserBlocksUser | Node::GistsId |
            Node::GistsIdStar | Node::GistsIdCommentsId | Node::TeamsId |
            Node::TeamsIdMembershipsUser | Node::TeamsIdReposOwnerRepo |
            Node::NotificationsThreadsIdSubscription => true,
            _ => false,
        },
    }
}

/// Whether a request of method `m` may be sent from state `n`.
pub fn endpoint(m: Method, n: Node) -> (r: bool)
    ensures
        r == is_endpoint(m, n),
{
    match m {
        Method::Get => match n {
            Node::Custom | Node::User | Node::Users | Node::Gists | Node::Notifications |
            Node::Emojis | Node::Events | Node::Feeds | Node::Meta | Node::RateLimit |
            Node::UserRepos | Node::UserFollowers | Node::UserFollowing | Node::UserStarred |
            Node::UserEmails | Node::UserKeys | Node::UserIssues | Node::UserOrgs |
            Node::UserSubscriptions | Node::UserBlocks | Node::UserGpgKeys |
            Node::UserFollowingUser | Node::UserStarredOwner | Node::UserStarredOwnerRepo |
            Node::UserKeysId | Node::UserGpgKeysId | Node::UserBlocksUser |
            Node::UserMembershipsOrgs | Node::UserMembershipsOrgsOrg | Node::UsersUsername |
            Node::UsersUsernameRepos | Node::UsersUsernameFollowers |
            Node::UsersUsernameFollowing | Node::UsersUsernameEvents | Node::UsersUsernameGists |
            Node::UsersUsernameOrgs | Node::UsersUsernameKeys | Node::UsersUsernameStarred |
            Node::UsersUsernameSubscriptions | Node::UsersUsernameReceivedEvents |
            Node::UsersUsernameReceivedEventsPublic | Node::UsersUsernameGpgKeys |
            Node::ReposOwnerRepo | Node::ReposOwnerRepoIssues | Node::ReposOwnerRepoCommits |
            Node::ReposOwnerRepoBranches | Node::ReposOwnerRepoStatusesSha | Node::OrgsOrg |
            Node::OrgsOrgRepos | Node::OrgsOrgMembers | Node::TeamsId | Node::TeamsIdMembers |
            Node::TeamsIdRepos | Node::TeamsIdMemberships | Node::TeamsIdInvitations |
            Node::TeamsIdMembershipsUser | Node::TeamsIdReposOwner |
            Node::TeamsIdReposOwnerRepo | Node::GistsId | Node::GistsIdStar |
            Node::GistsIdForks | Node::GistsIdComments | Node::GistsIdCommentsId |
            Node::NotificationsThreadsId | Node::NotificationsThreadsIdSubscription |
            Node::SearchQ(_) | Node::SearchSort(_) | Node::SearchOrder(_) => true,
            _ => false,
        },
        Method::Put => match n {
            Node::Custom | Node::UserFollowingUser | Node::UserStarredOwnerRepo |
            Node::GistsIdStar | Node::Notifications | Node::TeamsIdMembershipsUser |
            Node::TeamsIdReposOwnerRepo | Node::NotificationsThreadsIdSubscription => true,
            _ => false,
        },
        Method::Post => match n {
            Node::Custom | Node::UserRepos | Node::UserKeys | Node::UserGpgKeys |
            Node::UserEmails | Node::Gists | Node::GistsIdForks | Node::GistsIdComments |
            Node::ReposOwnerRepoIssues | Node::ReposOwnerRepoStatusesSha | Node::OrgsOrgRepos => true,
            _ => false,
        },
        Method::Patch => match n {
            Node::Custom | Node::User | Node::GistsId | Node::ReposOwnerRepo | Node::TeamsId |
            Node::NotificationsThreadsId => true,
            _ => false,
        },
        Method::Delete => match n {
            Node::Custom | Node::UserFollowingUser | Node::UserStarredOwnerRepo |
            Node::UserKeysId | Node::UserGpgKeysId | Node::UserBlocksUser | Node::GistsId |
            Node::GistsIdStar | Node::GistsIdCommentsId | Node::TeamsId |
            Node::TeamsIdMembershipsUser | Node::TeamsIdReposOwnerRepo |
            Node::NotificationsThreadsIdSubscription => true,
            _ => false,
        },
    }
}

/// The states from which some endpoint of method `m` can still be reached.
pub open spec fn leads_to_endpoint(m: Method, n: Node) -> bool {
    match m {
        Method::Get => true,
        Method::Put => match n {
            Node::Root | Node::Custom | Node::User | Node::Teams | Node::Gists |
            Node::Notifications | Node::UserFollowing | Node::UserStarred |
            Node::UserFollowingUser | Node::UserStarredOwner | Node::UserStarredOwnerRepo |
            Node::TeamsId | Node::TeamsIdRepos | Node::TeamsIdMemberships |
            Node::TeamsIdMembershipsUser | Node::TeamsIdReposOwner |
            Node::TeamsIdReposOwnerRepo | Node::GistsId | Node::GistsIdStar |
            Node::NotificationsThreads | Node::NotificationsThreadsId |
            Node::NotificationsThreadsIdSubscription => true,
            _ => false,
        },
        Method::Post => match n {
            Node::Root | Node::Custom | Node::User | Node::Repos | Node::Orgs | Node::Gists |
            Node::UserRepos | Node::UserEmails | Node::UserKeys | Node::UserGpgKeys |
            Node::ReposOwner | Node::ReposOwnerRepo | Node::ReposOwnerRepoIssues |
            Node::ReposOwnerRepoStatuses | Node::ReposOwnerRepoStatusesSha | Node::OrgsOrg |
            Node::OrgsOrgRepos | Node::GistsId | Node::GistsIdForks | Node::GistsIdComments => true,
            _ => false,
        },
        Method::Patch => match n {
            Node::Root | Node::Custom | Node::User | Node::Repos | Node::Teams | Node::Gists |
            Node::Notifications | Node::ReposOwner | Node::ReposOwnerRepo | Node::TeamsId |
            Node::GistsId | Node::NotificationsThreads | Node::NotificationsThreadsId => true,
            _ => false,
        },
        Method::Delete => match n {
            Node::Root | Node::Custom | Node::User | Node::Teams | Node::Gists |
            Node::Notifications | Node::UserFollowing | Node::UserStarred | Node::UserKeys |
            Node::UserBlocks | Node::UserGpgKeys | Node::UserFollowingUser |
            Node::UserStarredOwner | Node::UserStarredOwnerRepo | Node::UserKeysId |
            Node::UserGpgKeysId | Node::UserBlocksUser | Node::TeamsId | Node::TeamsIdRepos |
            Node::TeamsIdMemberships | Node::TeamsIdMembershipsUser | Node::TeamsIdReposOwner |
            Node::TeamsIdReposOwnerRepo | Node::GistsId | Node::GistsIdStar |
            Node::GistsIdComments | Node::GistsIdCommentsId | Node::NotificationsThreads |
            Node::NotificationsThreadsId | Node::NotificationsThreadsIdSubscription => true,
            _ => false,
        },
    }
}

fn leads(m: Method, n: Node) -> (r: bool)
    ensures
        r == leads_to_endpoint(m, n),
{
    match m {
        Method::Get => true,
        Method::Put => match n {
            Node::Root | Node::Custom | Node::User | Node::Teams | Node::Gists |
            Node::Notifications | Node::UserFollowing | Node::UserStarred |
            Node::UserFollowingUser | Node::UserStarredOwner | Node::UserStarredOwnerRepo |
            Node::TeamsId | Node::TeamsIdRepos | Node::TeamsIdMemberships |
            Node::TeamsIdMembershipsUser | Node::TeamsIdReposOwner |
            Node::TeamsIdReposOwnerRepo | Node::GistsId | Node::GistsIdStar |
            Node::NotificationsThreads | Node::NotificationsThreadsId |
            Node::NotificationsThreadsIdSubscription => true,
            _ => false,
        },
        Method::Post => match n {
            Node::Root | Node::Custom | Node::User | Node::Repos | Node::Orgs | Node::Gists |
            Node::UserRepos | Node::UserEmails | Node::UserKeys | Node::UserGpgKeys |
            Node::ReposOwner | Node::ReposOwnerRepo | Node::ReposOwnerRepoIssues |
            Node::ReposOwnerRepoStatuses | Node::ReposOwnerRepoStatusesSha | Node::OrgsOrg |
            Node::OrgsOrgRepos | Node::GistsId | Node::GistsIdForks | Node::GistsIdComments => true,
            _ => false,
        },
        Method::Patch => match n {
            Node::Root | Node::Custom | Node::User | Node::Repos | Node::Teams | Node::Gists |
            Node::Notifications | Node::ReposOwner | Node::ReposOwnerRepo | Node::TeamsId |
            Node::GistsId | Node::NotificationsThreads | Node::NotificationsThreadsId => true,
            _ => false,
        },
        Method::Delete => match n {
            Node::Root | Node::Custom | Node::User | Node::Teams | Node::Gists |
            Node::Notifications | Node::UserFollowing | Node::UserStarred | Node::UserKeys |
            Node::UserBlocks | Node::UserGpgKeys | Node::UserFollowingUser |
            Node::UserStarredOwner | Node::UserStarredOwnerRepo | Node::UserKeysId |
            Node::UserGpgKeysId | Node::UserBlocksUser | Node::TeamsId | Node::TeamsIdRepos |
            Node::TeamsIdMemberships | Node::TeamsIdMembershipsUser | Node::TeamsIdReposOwner |
            Node::TeamsIdReposOwnerRepo | Node::GistsId | Node::GistsIdStar |
            Node::GistsIdComments | Node::GistsIdCommentsId | Node::NotificationsThreads |
            Node::NotificationsThreadsId | Node::NotificationsThreadsIdSubscription => true,
            _ => false,
        },
    }
}

/// The transition table of method `m`: the state that `e` leads to from
/// `n`, or `None` where the transition does not exist or leads away from
/// every endpoint of `m`.
pub open spec fn next_node(m: Method, n: Node, e: Edge) -> Option<Node> {
    match edge_target(n, e) {
        Some(t) => if leads_to_endpoint(m, t) {
            Some(t)
        } else {
            None
        },
        None => None,
    }
}

/// Looks up the transition table of method `m`.
pub fn advance(m: Method, n: Node, e: Edge) -> (r: Option<Node>)
    ensures
        r == next_node(m, n, e),
{
    match target(n, e) {
        Some(t) => if leads(m, t) {
            Some(t)
        } else {
            None
        },
        None => None,
    }
}

} // verus!
