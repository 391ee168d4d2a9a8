//! The push event and the structures inside it, and how each is read from a
//! JSON document.
//!
//! Member names are matched exactly. A member that a structure does not know
//! is passed over; a member that it needs must be there with a value of the
//! right kind.

use crate::json::{optional_text_of, texts_of, views_of, Json, JsonValue};
use vstd::prelude::*;
use vstd::string::*;

verus! {

/// Who wrote or committed a commit.
#[derive(Debug, PartialEq, Eq)]
pub struct CommitAuthor {
    pub name: String,
    pub email: String,
    pub username: String,
}

impl CommitAuthor {
    /// `key` names a member that a document must have to be read as
    /// this structure.
    pub open spec fn requires_member(key: Seq<char>) -> bool {
        ||| key == "name"@
        ||| key == "email"@
        ||| key == "username"@
    }

    /// `json` can be read as this structure: it holds every required
    /// member with a value of the right kind.
    pub open spec fn decodable(json: JsonValue) -> bool {
        &&& json.text("name"@) is Some
        &&& json.text("email"@) is Some
        &&& json.text("username"@) is Some
    }

    /// `self` holds, field by field, what `json` holds member by member.
    pub open spec fn decoded_from(&self, json: JsonValue) -> bool {
        &&& json.text("name"@) == Some(self.name@)
        &&& json.text("email"@) == Some(self.email@)
        &&& json.text("username"@) == Some(self.username@)
    }

    /// Reads the structure from a JSON value. Members that it does not
    /// know are passed over.
    pub fn decode(json: &Json) -> (r: Option<CommitAuthor>)
        ensures
            r is Some <==> Self::decodable(json@),
            r matches Some(value) ==> value.decoded_from(json@),
    {
        let name = json.text("name")?;
        let email = json.text("email")?;
        let username = json.text("username")?;
        Some(CommitAuthor {
            name,
            email,
            username,
        })
    }
}

/// One commit of a push.
#[derive(Debug, PartialEq, Eq)]
pub struct CommitDetails {
    /// The commit hash.
    pub id: String,
    pub tree_id: String,
    pub distinct: bool,
    pub message: String,
    pub timestamp: String,
    pub url: String,
    pub author: CommitAuthor,
    pub committer: CommitAuthor,
    pub added: Vec<String>,
    pub removed: Vec<String>,
    pub modified: Vec<String>,
}

impl CommitDetails {
    /// `key` names a member that a document must have to be read as
    /// this structure.
    pub open spec fn requires_member(key: Seq<char>) -> bool {
        ||| key == "id"@
        ||| key == "tree_id"@
        ||| key == "distinct"@
        ||| key == "message"@
        ||| key == "timestamp"@
        ||| key == "url"@
        ||| key == "author"@
        ||| key == "committer"@
        ||| key == "added"@
        ||| key == "removed"@
        ||| key == "modified"@
    }

    /// `json` can be read as this structure: it holds every required
    /// member with a value of the right kind.
    pub open spec fn decodable(json: JsonValue) -> bool {
        &&& json.text("id"@) is Some
        &&& json.text("tree_id"@) is Some
        &&& json.flag("distinct"@) is Some
        &&& json.text("message"@) is Some
        &&& json.text("timestamp"@) is Some
        &&& json.text("url"@) is Some
        &&& json.member("author"@) matches Some(inner) && CommitAuthor::decodable(inner)
        &&& json.member("committer"@) matches Some(inner) && CommitAuthor::decodable(inner)
        &&& json.texts("added"@) is Some
        &&& json.texts("removed"@) is Some
        &&& json.texts("modified"@) is Some
    }

    /// `self` holds, field by field, what `json` holds member by member.
    pub open spec fn decoded_from(&self, json: JsonValue) -> bool {
        &&& json.text("id"@) == Some(self.id@)
        &&& json.text("tree_id"@) == Some(self.tree_id@)
        &&& json.flag("distinct"@) == Some(self.distinct)
        &&& json.text("message"@) == Some(self.message@)
        &&& json.text("timestamp"@) == Some(self.timestamp@)
        &&& json.text("url"@) == Some(self.url@)
        &&& json.member("author"@) matches Some(inner) && self.author.decoded_from(inner)
        &&& json.member("committer"@) matches Some(inner) && self.committer.decoded_from(inner)
        &&& json.texts("added"@) == Some(texts_of(self.added@))
        &&& json.texts("removed"@) == Some(texts_of(self.removed@))
        &&& json.texts("modified"@) == Some(texts_of(self.modified@))
    }

    /// Reads the structure from a JSON value. Members that it does not
    /// know are passed over.
    pub fn decode(json: &Json) -> (r: Option<CommitDetails>)
        ensures
            r is Some <==> Self::decodable(json@),
            r matches Some(value) ==> value.decoded_from(json@),
    {
        let id = json.text("id")?;
        let tree_id = json.text("tree_id")?;
        let distinct = json.flag("distinct")?;
        let message = json.text("message")?;
        let timestamp = json.text("timestamp")?;
        let url = json.text("url")?;
        let author = CommitAuthor::decode(json.get("author")?)?;
        let committer = CommitAuthor::decode(json.get("committer")?)?;
        let added = json.texts("added")?;
        let removed = json.texts("removed")?;
        let modified = json.texts("modified")?;
        Some(CommitDetails {
            id,
            tree_id,
            distinct,
            message,
            timestamp,
            url,
            author,
            committer,
            added,
            removed,
            modified,
        })
    }
}

/// Every item can be read as a commit.
pub open spec fn all_decodable(items: Seq<JsonValue>) -> bool {
    forall|i: int| 0 <= i < items.len() ==> CommitDetails::decodable(#[trigger] items[i])
}

/// `commits` holds what `items` holds, commit by commit and in the same order.
pub open spec fn each_decoded_from(commits: Seq<CommitDetails>, items: Seq<JsonValue>) -> bool {
    &&& commits.len() == items.len()
    &&& forall|i: int| 0 <= i < items.len() ==> (#[trigger] commits[i]).decoded_from(items[i])
}

/// Reads the commits of a push, keeping their order.
pub fn decode_commits(items: &Vec<Json>) -> (r: Option<Vec<CommitDetails>>)
    ensures
        r is Some <==> all_decodable(views_of(items@)),
        r matches Some(commits) ==> each_decoded_from(commits@, views_of(items@)),
{
    let mut commits: Vec<CommitDetails> = Vec::new();
    let mut i: usize = 0;
    while i < items.len()
        invariant
            i <= items@.len(),
            commits@.len() == i,
            forall|k: int| 0 <= k < i ==> CommitDetails::decodable(#[trigger] views_of(items@)[k]),
            forall|k: int|
                0 <= k < i ==> (#[trigger] commits@[k]).decoded_from(views_of(items@)[k]),
        decreases items@.len() - i,
    {
        match CommitDetails::decode(&items[i]) {
            Some(commit) => commits.push(commit),
            None => {
                assert(!CommitDetails::decodable(views_of(items@)[i as int]));
                return None;
            },
        }
        i += 1;
    }
    Some(commits)
}

/// Who pushed, by name and e-mail address.
#[derive(Debug, PartialEq, Eq)]
pub struct Pusher {
    pub name: String,
    pub email: String,
}

impl Pusher {
    /// `key` names a member that a document must have to be read as
    /// this structure.
    pub open spec fn requires_member(key: Seq<char>) -> bool {
        ||| key == "name"@
        ||| key == "email"@
    }

    /// `json` can be read as this structure: it holds every required
    /// member with a value of the right kind.
    pub open spec fn decodable(json: JsonValue) -> bool {
        &&& json.text("name"@) is Some
        &&& json.text("email"@) is Some
    }

    /// `self` holds, field by field, what `json` holds member by member.
    pub open spec fn decoded_from(&self, json: JsonValue) -> bool {
        &&& json.text("name"@) == Some(self.name@)
        &&& json.text("email"@) == Some(self.email@)
    }

    /// Reads the structure from a JSON value. Members that it does not
    /// know are passed over.
    pub fn decode(json: &Json) -> (r: Option<Pusher>)
        ensures
            r is Some <==> Self::decodable(json@),
            r matches Some(value) ==> value.decoded_from(json@),
    {
        let name = json.text("name")?;
        let email = json.text("email")?;
        Some(Pusher {
            name,
            email,
        })
    }
}

/// The account that caused the event.
#[derive(Debug, PartialEq, Eq)]
pub struct Sender {
    pub login: String,
    pub id: u64,
    pub node_id: String,
    pub avatar_url: String,
    pub gravatar_id: String,
    pub url: String,
    pub html_url: String,
    pub followers_url: String,
    pub following_url: String,
    pub gists_url: String,
    pub starred_url: String,
    pub subscriptions_url: String,
    pub organizations_url: String,
    pub repos_url: String,
    pub events_url: String,
    pub received_events_url: String,
    /// The kind of account. On the wire: `type`.
    pub user_type: String,
    pub user_view_type: String,
    pub site_admin: bool,
}

impl Sender {
    /// `key` names a member that a document must have to be read as
    /// this structure.
    pub open spec fn requires_member(key: Seq<char>) -> bool {
        ||| key == "login"@
        ||| key == "id"@
        ||| key == "node_id"@
        ||| key == "avatar_url"@
        ||| key == "gravatar_id"@
        ||| key == "url"@
        ||| key == "html_url"@
        ||| key == "followers_url"@
        ||| key == "following_url"@
        ||| key == "gists_url"@
        ||| key == "starred_url"@
        ||| key == "subscriptions_url"@
        ||| key == "organizations_url"@
        ||| key == "repos_url"@
        ||| key == "events_url"@
        ||| key == "received_events_url"@
        ||| key == "type"@
        ||| key == "user_view_type"@
        ||| key == "site_admin"@
    }

    /// `json` can be read as this structure: it holds every required
    /// member with a value of the right kind.
    pub open spec fn decodable(json: JsonValue) -> bool {
        &&& json.text("login"@) is Some
        &&& json.unsigned("id"@) is Some
        &&& json.text("node_id"@) is Some
        &&& json.text("avatar_url"@) is Some
        &&& json.text("gravatar_id"@) is Some
        &&& json.text("url"@) is Some
        &&& json.text("html_url"@) is Some
        &&& json.text("followers_url"@) is Some
        &&& json.text("following_url"@) is Some
        &&& json.text("gists_url"@) is Some
        &&& json.text("starred_url"@) is Some
        &&& json.text("subscriptions_url"@) is Some
        &&& json.text("organizations_url"@) is Some
        &&& json.text("repos_url"@) is Some
        &&& json.text("events_url"@) is Some
        &&& json.text("received_events_url"@) is Some
        &&& json.text("type"@) is Some
        &&& json.text("user_view_type"@) is Some
        &&& json.flag("site_admin"@) is Some
    }

    /// `self` holds, field by field, what `json` holds member by member.
    pub open spec fn decoded_from(&self, json: JsonValue) -> bool {
        &&& json.text("login"@) == Some(self.login@)
        &&& json.unsigned("id"@) == Some(self.id)
        &&& json.text("node_id"@) == Some(self.node_id@)
        &&& json.text("avatar_url"@) == Some(self.avatar_url@)
        &&& json.text("gravatar_id"@) == Some(self.gravatar_id@)
        &&& json.text("url"@) == Some(self.url@)
        &&& json.text("html_url"@) == Some(self.html_url@)
        &&& json.text("followers_url"@) == Some(self.followers_url@)
        &&& json.text("following_url"@) == Some(self.following_url@)
        &&& json.text("gists_url"@) == Some(self.gists_url@)
        &&& json.text("starred_url"@) == Some(self.starred_url@)
        &&& json.text("subscriptions_url"@) == Some(self.subscriptions_url@)
        &&& json.text("organizations_url"@) == Some(self.organizations_url@)
        &&& json.text("repos_url"@) == Some(self.repos_url@)
        &&& json.text("events_url"@) == Some(self.events_url@)
        &&& json.text("received_events_url"@) == Some(self.received_events_url@)
        &&& json.text("type"@) == Some(self.user_type@)
        &&& json.text("user_view_type"@) == Some(self.user_view_type@)
        &&& json.flag("site_admin"@) == Some(self.site_admin)
    }

    /// Reads the structure from a JSON value. Members that it does not
    /// know are passed over.
    pub fn decode(json: &Json) -> (r: Option<Sender>)
        ensures
            r is Some <==> Self::decodable(json@),
            r matches Some(value) ==> value.decoded_from(json@),
    {
        let login = json.text("login")?;
        let id = json.unsigned("id")?;
        let node_id = json.text("node_id")?;
        let avatar_url = json.text("avatar_url")?;
        let gravatar_id = json.text("gravatar_id")?;
        let url = json.text("url")?;
        let html_url = json.text("html_url")?;
        let followers_url = json.text("followers_url")?;
        let following_url = json.text("following_url")?;
        let gists_url = json.text("gists_url")?;
        let starred_url = json.text("starred_url")?;
        let subscriptions_url = json.text("subscriptions_url")?;
        let organizations_url = json.text("organizations_url")?;
        let repos_url = json.text("repos_url")?;
        let events_url = json.text("events_url")?;
        let received_events_url = json.text("received_events_url")?;
        let user_type = json.text("type")?;
        let user_view_type = json.text("user_view_type")?;
        let site_admin = json.flag("site_admin")?;
        Some(Sender {
            login,
            id,
            node_id,
            avatar_url,
            gravatar_id,
            url,
            html_url,
            followers_url,
            following_url,
            gists_url,
            starred_url,
            subscriptions_url,
            organizations_url,
            repos_url,
            events_url,
            received_events_url,
            user_type,
            user_view_type,
            site_admin,
        })
    }
}

/// The account that owns the repository.
#[derive(Debug, PartialEq, Eq)]
pub struct Owner {
    pub name: String,
    pub email: String,
    pub login: String,
    pub id: u64,
    pub node_id: String,
    pub avatar_url: String,
    pub gravatar_id: String,
    pub url: String,
    pub html_url: String,
    pub followers_url: String,
    pub following_url: String,
    pub gists_url: String,
    pub starred_url: String,
    pub subscriptions_url: String,
    pub organizations_url: String,
    pub repos_url: String,
    pub events_url: String,
    pub received_events_url: String,
    /// The kind of account. On the wire: `type`.
    pub user_type: String,
    pub user_view_type: String,
    pub site_admin: bool,
}

impl Owner {
    /// `key` names a member that a document must have to be read as
    /// this structure.
    pub open spec fn requires_member(key: Seq<char>) -> bool {
        ||| key == "name"@
        ||| key == "email"@
        ||| key == "login"@
        ||| key == "id"@
        ||| key == "node_id"@
        ||| key == "avatar_url"@
        ||| key == "gravatar_id"@
        ||| key == "url"@
        ||| key == "html_url"@
        ||| key == "followers_url"@
        ||| key == "following_url"@
        ||| key == "gists_url"@
        ||| key == "starred_url"@
        ||| key == "subscriptions_url"@
        ||| key == "organizations_url"@
        ||| key == "repos_url"@
        ||| key == "events_url"@
        ||| key == "received_events_url"@
        ||| key == "type"@
        ||| key == "user_view_type"@
        ||| key == "site_admin"@
    }

    /// `json` can be read as this structure: it holds every required
    /// member with a value of the right kind.
    pub open spec fn decodable(json: JsonValue) -> bool {
        &&& json.text("name"@) is Some
        &&& json.text("email"@) is Some
        &&& json.text("login"@) is Some
        &&& json.unsigned("id"@) is Some
        &&& json.text("node_id"@) is Some
        &&& json.text("avatar_url"@) is Some
        &&& json.text("gravatar_id"@) is Some
        &&& json.text("url"@) is Some
        &&& json.text("html_url"@) is Some
        &&& json.text("followers_url"@) is Some
        &&& json.text("following_url"@) is Some
        &&& json.text("gists_url"@) is Some
        &&& json.text("starred_url"@) is Some
        &&& json.text("subscriptions_url"@) is Some
        &&& json.text("organizations_url"@) is Some
        &&& json.text("repos_url"@) is Some
        &&& json.text("events_url"@) is Some
        &&& json.text("received_events_url"@) is Some
        &&& json.text("type"@) is Some
        &&& json.text("user_view_type"@) is Some
        &&& json.flag("site_admin"@) is Some
    }

    /// `self` holds, field by field, what `json` holds member by member.
    pub open spec fn decoded_from(&self, json: JsonValue) -> bool {
        &&& json.text("name"@) == Some(self.name@)
        &&& json.text("email"@) == Some(self.email@)
        &&& json.text("login"@) == Some(self.login@)
        &&& json.unsigned("id"@) == Some(self.id)
        &&& json.text("node_id"@) == Some(self.node_id@)
        &&& json.text("avatar_url"@) == Some(self.avatar_url@)
        &&& json.text("gravatar_id"@) == Some(self.gravatar_id@)
        &&& json.text("url"@) == Some(self.url@)
        &&& json.text("html_url"@) == Some(self.html_url@)
        &&& json.text("followers_url"@) == Some(self.followers_url@)
        &&& json.text("following_url"@) == Some(self.following_url@)
        &&& json.text("gists_url"@) == Some(self.gists_url@)
        &&& json.text("starred_url"@) == Some(self.starred_url@)
        &&& json.text("subscriptions_url"@) == Some(self.subscriptions_url@)
        &&& json.text("organizations_url"@) == Some(self.organizations_url@)
        &&& json.text("repos_url"@) == Some(self.repos_url@)
        &&& json.text("events_url"@) == Some(self.events_url@)
        &&& json.text("received_events_url"@) == Some(self.received_events_url@)
        &&& json.text("type"@) == Some(self.user_type@)
        &&& json.text("user_view_type"@) == Some(self.user_view_type@)
        &&& json.flag("site_admin"@) == Some(self.site_admin)
    }

    /// Reads the structure from a JSON value. Members that it does not
    /// know are passed over.
    pub fn decode(json: &Json) -> (r: Option<Owner>)
        ensures
            r is Some <==> Self::decodable(json@),
            r matches Some(value) ==> value.decoded_from(json@),
    {
        let name = json.text("name")?;
        let email = json.text("email")?;
        let login = json.text("login")?;
        let id = json.unsigned("id")?;
        let node_id = json.text("node_id")?;
        let avatar_url = json.text("avatar_url")?;
        let gravatar_id = json.text("gravatar_id")?;
        let url = json.text("url")?;
        let html_url = json.text("html_url")?;
        let followers_url = json.text("followers_url")?;
        let following_url = json.text("following_url")?;
        let gists_url = json.text("gists_url")?;
        let starred_url = json.text("starred_url")?;
        let subscriptions_url = json.text("subscriptions_url")?;
        let organizations_url = json.text("organizations_url")?;
        let repos_url = json.text("repos_url")?;
        let events_url = json.text("events_url")?;
        let received_events_url = json.text("received_events_url")?;
        let user_type = json.text("type")?;
        let user_view_type = json.text("user_view_type")?;
        let site_admin = json.flag("site_admin")?;
        Some(Owner {
            name,
            email,
            login,
            id,
            node_id,
            avatar_url,
            gravatar_id,
            url,
            html_url,
            followers_url,
            following_url,
            gists_url,
            starred_url,
            subscriptions_url,
            organizations_url,
            repos_url,
            events_url,
            received_events_url,
            user_type,
            user_view_type,
            site_admin,
        })
    }
}

/// The repository that was pushed to.
#[derive(Debug, PartialEq, Eq)]
pub struct Repository {
    pub id: u64,
    pub node_id: String,
    pub name: String,
    /// Owner and name, as in `owner/repo`.
    pub full_name: String,
    /// Whether the repository is private.
    pub private: bool,
    pub owner: Owner,
    pub html_url: String,
    pub description: Option<String>,
    pub fork: bool,
    pub url: String,
    pub forks_url: String,
    pub keys_url: String,
    pub collaborators_url: String,
    pub teams_url: String,
    pub hooks_url: String,
    pub issue_events_url: String,
    pub events_url: String,
    pub assignees_url: String,
    pub branches_url: String,
    pub tags_url: String,
    pub blobs_url: String,
    pub git_tags_url: String,
    pub git_refs_url: String,
    pub trees_url: String,
    pub statuses_url: String,
    pub languages_url: String,
    pub stargazers_url: String,
    pub contributors_url: String,
    pub subscribers_url: String,
    pub subscription_url: String,
    pub commits_url: String,
    pub git_commits_url: String,
    pub comments_url: String,
    pub issue_comment_url: String,
    pub contents_url: String,
    pub compare_url: String,
    pub merges_url: String,
    pub archive_url: String,
    pub downloads_url: String,
    pub issues_url: String,
    pub pulls_url: String,
    pub milestones_url: String,
    pub notifications_url: String,
    pub labels_url: String,
    pub releases_url: String,
    pub deployments_url: String,
    pub created_at: u64,
    pub updated_at: String,
    pub pushed_at: u64,
    pub git_url: String,
    pub ssh_url: String,
    pub clone_url: String,
    pub svn_url: String,
    pub homepage: Option<String>,
    pub size: u64,
    pub stargazers_count: u32,
    pub watchers_count: u32,
    pub language: Option<String>,
    pub has_issues: bool,
    pub has_projects: bool,
    pub has_downloads: bool,
    pub has_wiki: bool,
    pub has_pages: bool,
    pub has_discussions: bool,
    pub forks_count: u32,
    pub mirror_url: Option<String>,
    pub archived: bool,
    pub disabled: bool,
    pub open_issues_count: u32,
    pub license: Option<String>,
    pub allow_forking: bool,
    pub is_template: bool,
    pub web_commit_signoff_required: bool,
    pub topics: Vec<String>,
    pub visibility: String,
    pub forks: u32,
    pub open_issues: u32,
    pub watchers: u32,
    pub default_branch: String,
    pub stargazers: u32,
    pub master_branch: String,
}

impl Repository {
    /// `key` names a member that a document must have to be read as
    /// this structure.
    pub open spec fn requires_member(key: Seq<char>) -> bool {
        ||| key == "id"@
        ||| key == "node_id"@
        ||| key == "name"@
        ||| key == "full_name"@
        ||| key == "private"@
        ||| key == "owner"@
        ||| key == "html_url"@
        ||| key == "fork"@
        ||| key == "url"@
        ||| key == "forks_url"@
        ||| key == "keys_url"@
        ||| key == "collaborators_url"@
        ||| key == "teams_url"@
        ||| key == "hooks_url"@
        ||| key == "issue_events_url"@
        ||| key == "events_url"@
        ||| key == "assignees_url"@
        ||| key == "branches_url"@
        ||| key == "tags_url"@
        ||| key == "blobs_url"@
        ||| key == "git_tags_url"@
        ||| key == "git_refs_url"@
        ||| key == "trees_url"@
        ||| key == "statuses_url"@
        ||| key == "languages_url"@
        ||| key == "stargazers_url"@
        ||| key == "contributors_url"@
        ||| key == "subscribers_url"@
        ||| key == "subscription_url"@
        ||| key == "commits_url"@
        ||| key == "git_commits_url"@
        ||| key == "comments_url"@
        ||| key == "issue_comment_url"@
        ||| key == "contents_url"@
        ||| key == "compare_url"@
        ||| key == "merges_url"@
        ||| key == "archive_url"@
        ||| key == "downloads_url"@
        ||| key == "issues_url"@
        ||| key == "pulls_url"@
        ||| key == "milestones_url"@
        ||| key == "notifications_url"@
        ||| key == "labels_url"@
        ||| key == "releases_url"@
        ||| key == "deployments_url"@
        ||| key == "created_at"@
        ||| key == "updated_at"@
        ||| key == "pushed_at"@
        ||| key == "git_url"@
        ||| key == "ssh_url"@
        ||| key == "clone_url"@
        ||| key == "svn_url"@
        ||| key == "size"@
        ||| key == "stargazers_count"@
        ||| key == "watchers_count"@
        ||| key == "has_issues"@
        ||| key == "has_projects"@
        ||| key == "has_downloads"@
        ||| key == "has_wiki"@
        ||| key == "has_pages"@
        ||| key == "has_discussions"@
        ||| key == "forks_count"@
        ||| key == "archived"@
        ||| key == "disabled"@
        ||| key == "open_issues_count"@
        ||| key == "allow_forking"@
        ||| key == "is_template"@
        ||| key == "web_commit_signoff_required"@
        ||| key == "topics"@
        ||| key == "visibility"@
        ||| key == "forks"@
        ||| key == "open_issues"@
        ||| key == "watchers"@
        ||| key == "default_branch"@
        ||| key == "stargazers"@
        ||| key == "master_branch"@
    }

    /// `key` names a member that this structure can do without.
    pub open spec fn optional_member(key: Seq<char>) -> bool {
        ||| key == "description"@
        ||| key == "homepage"@
        ||| key == "language"@
        ||| key == "mirror_url"@
        ||| key == "license"@
    }

    /// `json` can be read as this structure: it holds every required
    /// member with a value of the right kind, and each member that may be
    /// left out is absent, `null` or a string.
    pub open spec fn decodable(json: JsonValue) -> bool {
        &&& json.unsigned("id"@) is Some
        &&& json.text("node_id"@) is Some
        &&& json.text("name"@) is Some
        &&& json.text("full_name"@) is Some
        &&& json.flag("private"@) is Some
        &&& json.member("owner"@) matches Some(inner) && Owner::decodable(inner)
        &&& json.text("html_url"@) is Some
        &&& json.optional_text("description"@) is Some
        &&& json.flag("fork"@) is Some
        &&& json.text("url"@) is Some
        &&& json.text("forks_url"@) is Some
        &&& json.text("keys_url"@) is Some
        &&& json.text("collaborators_url"@) is Some
        &&& json.text("teams_url"@) is Some
        &&& json.text("hooks_url"@) is Some
        &&& json.text("issue_events_url"@) is Some
        &&& json.text("events_url"@) is Some
        &&& json.text("assignees_url"@) is Some
        &&& json.text("branches_url"@) is Some
        &&& json.text("tags_url"@) is Some
        &&& json.text("blobs_url"@) is Some
        &&& json.text("git_tags_url"@) is Some
        &&& json.text("git_refs_url"@) is Some
        &&& json.text("trees_url"@) is Some
        &&& json.text("statuses_url"@) is Some
        &&& json.text("languages_url"@) is Some
        &&& json.text("stargazers_url"@) is Some
        &&& json.text("contributors_url"@) is Some
        &&& json.text("subscribers_url"@) is Some
        &&& json.text("subscription_url"@) is Some
        &&& json.text("commits_url"@) is Some
        &&& json.text("git_commits_url"@) is Some
        &&& json.text("comments_url"@) is Some
        &&& json.text("issue_comment_url"@) is Some
        &&& json.text("contents_url"@) is Some
        &&& json.text("compare_url"@) is Some
        &&& json.text("merges_url"@) is Some
        &&& json.text("archive_url"@) is Some
        &&& json.text("downloads_url"@) is Some
        &&& json.text("issues_url"@) is Some
        &&& json.text("pulls_url"@) is Some
        &&& json.text("milestones_url"@) is Some
        &&& json.text("notifications_url"@) is Some
        &&& json.text("labels_url"@) is Some
        &&& json.text("releases_url"@) is Some
        &&& json.text("deployments_url"@) is Some
        &&& json.unsigned("created_at"@) is Some
        &&& json.text("updated_at"@) is Some
        &&& json.unsigned("pushed_at"@) is Some
        &&& json.text("git_url"@) is Some
        &&& json.text("ssh_url"@) is Some
        &&& json.text("clone_url"@) is Some
        &&& json.text("svn_url"@) is Some
        &&& json.optional_text("homepage"@) is Some
        &&& json.unsigned("size"@) is Some
        &&& json.small_unsigned("stargazers_count"@) is Some
        &&& json.small_unsigned("watchers_count"@) is Some
        &&& json.optional_text("language"@) is Some
        &&& json.flag("has_issues"@) is Some
        &&& json.flag("has_projects"@) is Some
        &&& json.flag("has_downloads"@) is Some
        &&& json.flag("has_wiki"@) is Some
        &&& json.flag("has_pages"@) is Some
        &&& json.flag("has_discussions"@) is Some
        &&& json.small_unsigned("forks_count"@) is Some
        &&& json.optional_text("mirror_url"@) is Some
        &&& json.flag("archived"@) is Some
        &&& json.flag("disabled"@) is Some
        &&& json.small_unsigned("open_issues_count"@) is Some
        &&& json.optional_text("license"@) is Some
        &&& json.flag("allow_forking"@) is Some
        &&& json.flag("is_template"@) is Some
        &&& json.flag("web_commit_signoff_required"@) is Some
        &&& json.texts("topics"@) is Some
        &&& json.text("visibility"@) is Some
        &&& json.small_unsigned("forks"@) is Some
        &&& json.small_unsigned("open_issues"@) is Some
        &&& json.small_unsigned("watchers"@) is Some
        &&& json.text("default_branch"@) is Some
        &&& json.small_unsigned("stargazers"@) is Some
        &&& json.text("master_branch"@) is Some
    }

    /// `self` holds, field by field, what `json` holds member by member.
    pub open spec fn decoded_from(&self, json: JsonValue) -> bool {
        &&& json.unsigned("id"@) == Some(self.id)
        &&& json.text("node_id"@) == Some(self.node_id@)
        &&& json.text("name"@) == Some(self.name@)
        &&& json.text("full_name"@) == Some(self.full_name@)
        &&& json.flag("private"@) == Some(self.private)
        &&& json.member("owner"@) matches Some(inner) && self.owner.decoded_from(inner)
        &&& json.text("html_url"@) == Some(self.html_url@)
        &&& json.optional_text("description"@) == Some(optional_text_of(self.description))
        &&& json.flag("fork"@) == Some(self.fork)
        &&& json.text("url"@) == Some(self.url@)
        &&& json.text("forks_url"@) == Some(self.forks_url@)
        &&& json.text("keys_url"@) == Some(self.keys_url@)
        &&& json.text("collaborators_url"@) == Some(self.collaborators_url@)
        &&& json.text("teams_url"@) == Some(self.teams_url@)
        &&& json.text("hooks_url"@) == Some(self.hooks_url@)
        &&& json.text("issue_events_url"@) == Some(self.issue_events_url@)
        &&& json.text("events_url"@) == Some(self.events_url@)
        &&& json.text("assignees_url"@) == Some(self.assignees_url@)
        &&& json.text("branches_url"@) == Some(self.branches_url@)
        &&& json.text("tags_url"@) == Some(self.tags_url@)
        &&& json.text("blobs_url"@) == Some(self.blobs_url@)
        &&& json.text("git_tags_url"@) == Some(self.git_tags_url@)
        &&& json.text("git_refs_url"@) == Some(self.git_refs_url@)
        &&& json.text("trees_url"@) == Some(self.trees_url@)
        &&& json.text("statuses_url"@) == Some(self.statuses_url@)
        &&& json.text("languages_url"@) == Some(self.languages_url@)
        &&& json.text("stargazers_url"@) == Some(self.stargazers_url@)
        &&& json.text("contributors_url"@) == Some(self.contributors_url@)
        &&& json.text("subscribers_url"@) == Some(self.subscribers_url@)
        &&& json.text("subscription_url"@) == Some(self.subscription_url@)
        &&& json.text("commits_url"@) == Some(self.commits_url@)
        &&& json.text("git_commits_url"@) == Some(self.git_commits_url@)
        &&& json.text("comments_url"@) == Some(self.comments_url@)
        &&& json.text("issue_comment_url"@) == Some(self.issue_comment_url@)
        &&& json.text("contents_url"@) == Some(self.contents_url@)
        &&& json.text("compare_url"@) == Some(self.compare_url@)
        &&& json.text("merges_url"@) == Some(self.merges_url@)
        &&& json.text("archive_url"@) == Some(self.archive_url@)
        &&& json.text("downloads_url"@) == Some(self.downloads_url@)
        &&& json.text("issues_url"@) == Some(self.issues_url@)
        &&& json.text("pulls_url"@) == Some(self.pulls_url@)
        &&& json.text("milestones_url"@) == Some(self.milestones_url@)
        &&& json.text("notifications_url"@) == Some(self.notifications_url@)
        &&& json.text("labels_url"@) == Some(self.labels_url@)
        &&& json.text("releases_url"@) == Some(self.releases_url@)
        &&& json.text("deployments_url"@) == Some(self.deployments_url@)
        &&& json.unsigned("created_at"@) == Some(self.created_at)
        &&& json.text("updated_at"@) == Some(self.updated_at@)
        &&& json.unsigned("pushed_at"@) == Some(self.pushed_at)
        &&& json.text("git_url"@) == Some(self.git_url@)
        &&& json.text("ssh_url"@) == Some(self.ssh_url@)
        &&& json.text("clone_url"@) == Some(self.clone_url@)
        &&& json.text("svn_url"@) == Some(self.svn_url@)
        &&& json.optional_text("homepage"@) == Some(optional_text_of(self.homepage))
        &&& json.unsigned("size"@) == Some(self.size)
        &&& json.small_unsigned("stargazers_count"@) == Some(self.stargazers_count)
        &&& json.small_unsigned("watchers_count"@) == Some(self.watchers_count)
        &&& json.optional_text("language"@) == Some(optional_text_of(self.language))
        &&& json.flag("has_issues"@) == Some(self.has_issues)
        &&& json.flag("has_projects"@) == Some(self.has_projects)
        &&& json.flag("has_downloads"@) == Some(self.has_downloads)
        &&& json.flag("has_wiki"@) == Some(self.has_wiki)
        &&& json.flag("has_pages"@) == Some(self.has_pages)
        &&& json.flag("has_discussions"@) == Some(self.has_discussions)
        &&& json.small_unsigned("forks_count"@) == Some(self.forks_count)
        &&& json.optional_text("mirror_url"@) == Some(optional_text_of(self.mirror_url))
        &&& json.flag("archived"@) == Some(self.archived)
        &&& json.flag("disabled"@) == Some(self.disabled)
        &&& json.small_unsigned("open_issues_count"@) == Some(self.open_issues_count)
        &&& json.optional_text("license"@) == Some(optional_text_of(self.license))
        &&& json.flag("allow_forking"@) == Some(self.allow_forking)
        &&& json.flag("is_template"@) == Some(self.is_template)
        &&& json.flag("web_commit_signoff_required"@) == Some(self.web_commit_signoff_required)
        &&& json.texts("topics"@) == Some(texts_of(self.topics@))
        &&& json.text("visibility"@) == Some(self.visibility@)
        &&& json.small_unsigned("forks"@) == Some(self.forks)
        &&& json.small_unsigned("open_issues"@) == Some(self.open_issues)
        &&& json.small_unsigned("watchers"@) == Some(self.watchers)
        &&& json.text("default_branch"@) == Some(self.default_branch@)
        &&& json.small_unsigned("stargazers"@) == Some(self.stargazers)
        &&& json.text("master_branch"@) == Some(self.master_branch@)
    }

    /// Reads the structure from a JSON value. Members that it does not
    /// know are passed over.
    pub fn decode(json: &Json) -> (r: Option<Repository>)
        ensures
            r is Some <==> Self::decodable(json@),
            r matches Some(value) ==> value.decoded_from(json@),
    {
        let id = json.unsigned("id")?;
        let node_id = json.text("node_id")?;
        let name = json.text("name")?;
        let full_name = json.text("full_name")?;
        let private = json.flag("private")?;
        let owner = Owner::decode(json.get("owner")?)?;
        let html_url = json.text("html_url")?;
        let description = json.optional_text("description")?;
        let fork = json.flag("fork")?;
        let url = json.text("url")?;
        let forks_url = json.text("forks_url")?;
        let keys_url = json.text("keys_url")?;
        let collaborators_url = json.text("collaborators_url")?;
        let teams_url = json.text("teams_url")?;
        let hooks_url = json.text("hooks_url")?;
        let issue_events_url = json.text("issue_events_url")?;
        let events_url = json.text("events_url")?;
        let assignees_url = json.text("assignees_url")?;
        let branches_url = json.text("branches_url")?;
        let tags_url = json.text("tags_url")?;
        let blobs_url = json.text("blobs_url")?;
        let git_tags_url = json.text("git_tags_url")?;
        let git_refs_url = json.text("git_refs_url")?;
        let trees_url = json.text("trees_url")?;
        let statuses_url = json.text("statuses_url")?;
        let languages_url = json.text("languages_url")?;
        let stargazers_url = json.text("stargazers_url")?;
        let contributors_url = json.text("contributors_url")?;
        let subscribers_url = json.text("subscribers_url")?;
        let subscription_url = json.text("subscription_url")?;
        let commits_url = json.text("commits_url")?;
        let git_commits_url = json.text("git_commits_url")?;
        let comments_url = json.text("comments_url")?;
        let issue_comment_url = json.text("issue_comment_url")?;
        let contents_url = json.text("contents_url")?;
        let compare_url = json.text("compare_url")?;
        let merges_url = json.text("merges_url")?;
        let archive_url = json.text("archive_url")?;
        let downloads_url = json.text("downloads_url")?;
        let issues_url = json.text("issues_url")?;
        let pulls_url = json.text("pulls_url")?;
        let milestones_url = json.text("milestones_url")?;
        let notifications_url = json.text("notifications_url")?;
        let labels_url = json.text("labels_url")?;
        let releases_url = json.text("releases_url")?;
        let deployments_url = json.text("deployments_url")?;
        let created_at = json.unsigned("created_at")?;
        let updated_at = json.text("updated_at")?;
        let pushed_at = json.unsigned("pushed_at")?;
        let git_url = json.text("git_url")?;
        let ssh_url = json.text("ssh_url")?;
        let clone_url = json.text("clone_url")?;
        let svn_url = json.text("svn_url")?;
        let homepage = json.optional_text("homepage")?;
        let size = json.unsigned("size")?;
        let stargazers_count = json.small_unsigned("stargazers_count")?;
        let watchers_count = json.small_unsigned("watchers_count")?;
        let language = json.optional_text("language")?;
        let has_issues = json.flag("has_issues")?;
        let has_projects = json.flag("has_projects")?;
        let has_downloads = json.flag("has_downloads")?;
        let has_wiki = json.flag("has_wiki")?;
        let has_pages = json.flag("has_pages")?;
        let has_discussions = json.flag("has_discussions")?;
        let forks_count = json.small_unsigned("forks_count")?;
        let mirror_url = json.optional_text("mirror_url")?;
        let archived = json.flag("archived")?;
        let disabled = json.flag("disabled")?;
        let open_issues_count = json.small_unsigned("open_issues_count")?;
        let license = json.optional_text("license")?;
        let allow_forking = json.flag("allow_forking")?;
        let is_template = json.flag("is_template")?;
        let web_commit_signoff_required = json.flag("web_commit_signoff_required")?;
        let topics = json.texts("topics")?;
        let visibility = json.text("visibility")?;
        let forks = json.small_unsigned("forks")?;
        let open_issues = json.small_unsigned("open_issues")?;
        let watchers = json.small_unsigned("watchers")?;
        let default_branch = json.text("default_branch")?;
        let stargazers = json.small_unsigned("stargazers")?;
        let master_branch = json.text("master_branch")?;
        Some(Repository {
            id,
            node_id,
            name,
            full_name,
            private,
            owner,
            html_url,
            description,
            fork,
            url,
            forks_url,
            keys_url,
            collaborators_url,
            teams_url,
            hooks_url,
            issue_events_url,
            events_url,
            assignees_url,
            branches_url,
            tags_url,
            blobs_url,
            git_tags_url,
            git_refs_url,
            trees_url,
            statuses_url,
            languages_url,
            stargazers_url,
            contributors_url,
            subscribers_url,
            subscription_url,
            commits_url,
            git_commits_url,
            comments_url,
            issue_comment_url,
            contents_url,
            compare_url,
            merges_url,
            archive_url,
            downloads_url,
            issues_url,
            pulls_url,
            milestones_url,
            notifications_url,
            labels_url,
            releases_url,
            deployments_url,
            created_at,
            updated_at,
            pushed_at,
            git_url,
            ssh_url,
            clone_url,
            svn_url,
            homepage,
            size,
            stargazers_count,
            watchers_count,
            language,
            has_issues,
            has_projects,
            has_downloads,
            has_wiki,
            has_pages,
            has_discussions,
            forks_count,
            mirror_url,
            archived,
            disabled,
            open_issues_count,
            license,
            allow_forking,
            is_template,
            web_commit_signoff_required,
            topics,
            visibility,
            forks,
            open_issues,
            watchers,
            default_branch,
            stargazers,
            master_branch,
        })
    }
}

/// A push event: what a push notification carries.
#[derive(Debug, PartialEq, Eq)]
pub struct GitHubPayloadBody {
    /// The ref that was updated, such as `refs/heads/main`. On the wire: `ref`.
    pub reference: String,
    /// The commit the ref pointed to before the push. On the wire: `before`.
    pub before_commit: String,
    /// The commit the ref points to after the push. On the wire: `after`.
    pub after_commit: String,
    pub repository: Repository,
    pub pusher: Pusher,
    pub sender: Sender,
    pub created: bool,
    pub deleted: bool,
    pub forced: bool,
    /// The ref the pushed one was made from, where there is one.
    pub base_ref: Option<String>,
    pub compare: String,
    /// The commits of the push, oldest first. May be empty.
    pub commits: Vec<CommitDetails>,
    /// The commit the ref points to now; present even where `commits` is empty.
    pub head_commit: CommitDetails,
}

impl GitHubPayloadBody {
    /// `key` names a member that a document must have to be read as
    /// this structure.
    pub open spec fn requires_member(key: Seq<char>) -> bool {
        ||| key == "ref"@
        ||| key == "before"@
        ||| key == "after"@
        ||| key == "repository"@
        ||| key == "pusher"@
        ||| key == "sender"@
        ||| key == "created"@
        ||| key == "deleted"@
        ||| key == "forced"@
        ||| key == "compare"@
        ||| key == "commits"@
        ||| key == "head_commit"@
    }

    /// `key` names a member that this structure can do without.
    pub open spec fn optional_member(key: Seq<char>) -> bool {
        ||| key == "base_ref"@
    }

    /// `json` can be read as this structure: it holds every required
    /// member with a value of the right kind, and each member that may be
    /// left out is absent, `null` or a string.
    pub open spec fn decodable(json: JsonValue) -> bool {
        &&& json.text("ref"@) is Some
        &&& json.text("before"@) is Some
        &&& json.text("after"@) is Some
        &&& json.member("repository"@) matches Some(inner) && Repository::decodable(inner)
        &&& json.member("pusher"@) matches Some(inner) && Pusher::decodable(inner)
        &&& json.member("sender"@) matches Some(inner) && Sender::decodable(inner)
        &&& json.flag("created"@) is Some
        &&& json.flag("deleted"@) is Some
        &&& json.flag("forced"@) is Some
        &&& json.optional_text("base_ref"@) is Some
        &&& json.text("compare"@) is Some
        &&& json.items("commits"@) matches Some(items) && all_decodable(items)
        &&& json.member("head_commit"@) matches Some(inner) && CommitDetails::decodable(inner)
    }

    /// `self` holds, field by field, what `json` holds member by member.
    pub open spec fn decoded_from(&self, json: JsonValue) -> bool {
        &&& json.text("ref"@) == Some(self.reference@)
        &&& json.text("before"@) == Some(self.before_commit@)
        &&& json.text("after"@) == Some(self.after_commit@)
        &&& json.member("repository"@) matches Some(inner) && self.repository.decoded_from(inner)
        &&& json.member("pusher"@) matches Some(inner) && self.pusher.decoded_from(inner)
        &&& json.member("sender"@) matches Some(inner) && self.sender.decoded_from(inner)
        &&& json.flag("created"@) == Some(self.created)
        &&& json.flag("deleted"@) == Some(self.deleted)
        &&& json.flag("forced"@) == Some(self.forced)
        &&& json.optional_text("base_ref"@) == Some(optional_text_of(self.base_ref))
        &&& json.text("compare"@) == Some(self.compare@)
        &&& json.items("commits"@) matches Some(items) && each_decoded_from(self.commits@, items)
        &&& json.member("head_commit"@) matches Some(inner) && self.head_commit.decoded_from(inner)
    }

    /// Reads the structure from a JSON value. Members that it does not
    /// know are passed over.
    pub fn decode(json: &Json) -> (r: Option<GitHubPayloadBody>)
        ensures
            r is Some <==> Self::decodable(json@),
            r matches Some(value) ==> value.decoded_from(json@),
    {
        let reference = json.text("ref")?;
        let before_commit = json.text("before")?;
        let after_commit = json.text("after")?;
        let repository = Repository::decode(json.get("repository")?)?;
        let pusher = Pusher::decode(json.get("pusher")?)?;
        let sender = Sender::decode(json.get("sender")?)?;
        let created = json.flag("created")?;
        let deleted = json.flag("deleted")?;
        let forced = json.flag("forced")?;
        let base_ref = json.optional_text("base_ref")?;
        let compare = json.text("compare")?;
        let commits = decode_commits(json.items("commits")?)?;
        let head_commit = CommitDetails::decode(json.get("head_commit")?)?;
        Some(GitHubPayloadBody {
            reference,
            before_commit,
            after_commit,
            repository,
            pusher,
            sender,
            created,
            deleted,
            forced,
            base_ref,
            compare,
            commits,
            head_commit,
        })
    }
}

/// Two documents hold the same under every name but `key`.
pub open spec fn agree_except(a: JsonValue, b: JsonValue, key: Seq<char>) -> bool {
    forall|other: Seq<char>| other != key ==> #[trigger] a.member(other) == b.member(other)
}

/// A document that lacks a required member cannot be read as a
/// `CommitAuthor`.
pub proof fn lemma_commit_author_needs_its_members(json: JsonValue, key: Seq<char>)
    requires
        CommitAuthor::requires_member(key),
        json.member(key) is None,
    ensures
        !CommitAuthor::decodable(json),
{
}

/// A document that lacks a required member cannot be read as a
/// `CommitDetails`.
pub proof fn lemma_commit_details_needs_its_members(json: JsonValue, key: Seq<char>)
    requires
        CommitDetails::requires_member(key),
        json.member(key) is None,
    ensures
        !CommitDetails::decodable(json),
{
}

/// A document that lacks a required member cannot be read as a
/// `Pusher`.
pub proof fn lemma_pusher_needs_its_members(json: JsonValue, key: Seq<char>)
    requires
        Pusher::requires_member(key),
        json.member(key) is None,
    ensures
        !Pusher::decodable(json),
{
}

/// A document that lacks a required member cannot be read as a
/// `Sender`.
pub proof fn lemma_sender_needs_its_members(json: JsonValue, key: Seq<char>)
    requires
        Sender::requires_member(key),
        json.member(key) is None,
    ensures
        !Sender::decodable(json),
{
}

/// A document that lacks a required member cannot be read as a
/// `Owner`.
pub proof fn lemma_owner_needs_its_members(json: JsonValue, key: Seq<char>)
    requires
        Owner::requires_member(key),
        json.member(key) is None,
    ensures
        !Owner::decodable(json),
{
}

/// A document that lacks a required member cannot be read as a
/// `Repository`.
pub proof fn lemma_repository_needs_its_members(json: JsonValue, key: Seq<char>)
    requires
        Repository::requires_member(key),
        json.member(key) is None,
    ensures
        !Repository::decodable(json),
{
}

/// A member that a `Repository` can do without may be absent, `null`
/// or any string: a document that can be read stays readable when such a
/// member is changed from one of these to another and all else is left as
/// it was.
pub proof fn lemma_repository_optional_member_is_free(
    before: JsonValue,
    after: JsonValue,
    key: Seq<char>,
)
    requires
        Repository::decodable(before),
        Repository::optional_member(key),
        agree_except(before, after, key),
        after.optional_text(key) is Some,
    ensures
        Repository::decodable(after),
{
    reveal_strlit("id");
    reveal_strlit("node_id");
    reveal_strlit("name");
    reveal_strlit("full_name");
    reveal_strlit("private");
    reveal_strlit("owner");
    reveal_strlit("html_url");
    reveal_strlit("description");
    reveal_strlit("fork");
    reveal_strlit("url");
    reveal_strlit("forks_url");
    reveal_strlit("keys_url");
    reveal_strlit("collaborators_url");
    reveal_strlit("teams_url");
    reveal_strlit("hooks_url");
    reveal_strlit("issue_events_url");
    reveal_strlit("events_url");
    reveal_strlit("assignees_url");
    reveal_strlit("branches_url");
    reveal_strlit("tags_url");
    reveal_strlit("blobs_url");
    reveal_strlit("git_tags_url");
    reveal_strlit("git_refs_url");
    reveal_strlit("trees_url");
    reveal_strlit("statuses_url");
    reveal_strlit("languages_url");
    reveal_strlit("stargazers_url");
    reveal_strlit("contributors_url");
    reveal_strlit("subscribers_url");
    reveal_strlit("subscription_url");
    reveal_strlit("commits_url");
    reveal_strlit("git_commits_url");
    reveal_strlit("comments_url");
    reveal_strlit("issue_comment_url");
    reveal_strlit("contents_url");
    reveal_strlit("compare_url");
    reveal_strlit("merges_url");
    reveal_strlit("archive_url");
    reveal_strlit("downloads_url");
    reveal_strlit("issues_url");
    reveal_strlit("pulls_url");
    reveal_strlit("milestones_url");
    reveal_strlit("notifications_url");
    reveal_strlit("labels_url");
    reveal_strlit("releases_url");
    reveal_strlit("deployments_url");
    reveal_strlit("created_at");
    reveal_strlit("updated_at");
    reveal_strlit("pushed_at");
    reveal_strlit("git_url");
    reveal_strlit("ssh_url");
    reveal_strlit("clone_url");
    reveal_strlit("svn_url");
    reveal_strlit("homepage");
    reveal_strlit("size");
    reveal_strlit("stargazers_count");
    reveal_strlit("watchers_count");
    reveal_strlit("language");
    reveal_strlit("has_issues");
    reveal_strlit("has_projects");
    reveal_strlit("has_downloads");
    reveal_strlit("has_wiki");
    reveal_strlit("has_pages");
    reveal_strlit("has_discussions");
    reveal_strlit("forks_count");
    reveal_strlit("mirror_url");
    reveal_strlit("archived");
    reveal_strlit("disabled");
    reveal_strlit("open_issues_count");
    reveal_strlit("license");
    reveal_strlit("allow_forking");
    reveal_strlit("is_template");
    reveal_strlit("web_commit_signoff_required");
    reveal_strlit("topics");
    reveal_strlit("visibility");
    reveal_strlit("forks");
    reveal_strlit("open_issues");
    reveal_strlit("watchers");
    reveal_strlit("default_branch");
    reveal_strlit("stargazers");
    reveal_strlit("master_branch");
    assert("id"@.len() == 2);
    assert("node_id"@.len() == 7);
    assert("name"@.len() == 4);
    assert("full_name"@.len() == 9);
    assert("private"@.len() == 7);
    assert("owner"@.len() == 5);
    assert("html_url"@.len() == 8);
    assert("description"@.len() == 11);
    assert("fork"@.len() == 4);
    assert("url"@.len() == 3);
    assert("forks_url"@.len() == 9);
    assert("keys_url"@.len() == 8);
    assert("collaborators_url"@.len() == 17);
    assert("teams_url"@.len() == 9);
    assert("hooks_url"@.len() == 9);
    assert("issue_events_url"@.len() == 16);
    assert("events_url"@.len() == 10);
    assert("assignees_url"@.len() == 13);
    assert("branches_url"@.len() == 12);
    assert("tags_url"@.len() == 8);
    assert("blobs_url"@.len() == 9);
    assert("git_tags_url"@.len() == 12);
    assert("git_refs_url"@.len() == 12);
    assert("trees_url"@.len() == 9);
    assert("statuses_url"@.len() == 12);
    assert("languages_url"@.len() == 13);
    assert("stargazers_url"@.len() == 14);
    assert("contributors_url"@.len() == 16);
    assert("subscribers_url"@.len() == 15);
    assert("subscription_url"@.len() == 16);
    assert("commits_url"@.len() == 11);
    assert("git_commits_url"@.len() == 15);
    assert("comments_url"@.len() == 12);
    assert("issue_comment_url"@.len() == 17);
    assert("contents_url"@.len() == 12);
    assert("compare_url"@.len() == 11);
    assert("merges_url"@.len() == 10);
    assert("archive_url"@.len() == 11);
    assert("downloads_url"@.len() == 13);
    assert("issues_url"@.len() == 10);
    assert("pulls_url"@.len() == 9);
    assert("milestones_url"@.len() == 14);
    assert("notifications_url"@.len() == 17);
    assert("labels_url"@.len() == 10);
    assert("releases_url"@.len() == 12);
    assert("deployments_url"@.len() == 15);
    assert("created_at"@.len() == 10);
    assert("updated_at"@.len() == 10);
    assert("pushed_at"@.len() == 9);
    assert("git_url"@.len() == 7);
    assert("ssh_url"@.len() == 7);
    assert("clone_url"@.len() == 9);
    assert("svn_url"@.len() == 7);
    assert("homepage"@.len() == 8);
    assert("size"@.len() == 4);
    assert("stargazers_count"@.len() == 16);
    assert("watchers_count"@.len() == 14);
    assert("language"@.len() == 8);
    assert("has_issues"@.len() == 10);
    assert("has_projects"@.len() == 12);
    assert("has_downloads"@.len() == 13);
    assert("has_wiki"@.len() == 8);
    assert("has_pages"@.len() == 9);
    assert("has_discussions"@.len() == 15);
    assert("forks_count"@.len() == 11);
    assert("mirror_url"@.len() == 10);
    assert("archived"@.len() == 8);
    assert("disabled"@.len() == 8);
    assert("open_issues_count"@.len() == 17);
    assert("license"@.len() == 7);
    assert("allow_forking"@.len() == 13);
    assert("is_template"@.len() == 11);
    assert("web_commit_signoff_required"@.len() == 27);
    assert("topics"@.len() == 6);
    assert("visibility"@.len() == 10);
    assert("forks"@.len() == 5);
    assert("open_issues"@.len() == 11);
    assert("watchers"@.len() == 8);
    assert("default_branch"@.len() == 14);
    assert("stargazers"@.len() == 10);
    assert("master_branch"@.len() == 13);
    assert("node_id"@[0] != "license"@[0]);
    assert("private"@[0] != "license"@[0]);
    assert("html_url"@[1] != "homepage"@[1]);
    assert("html_url"@[0] != "language"@[0]);
    assert("keys_url"@[0] != "homepage"@[0]);
    assert("keys_url"@[0] != "language"@[0]);
    assert("events_url"@[0] != "mirror_url"@[0]);
    assert("tags_url"@[0] != "homepage"@[0]);
    assert("tags_url"@[0] != "language"@[0]);
    assert("commits_url"@[0] != "description"@[0]);
    assert("compare_url"@[0] != "description"@[0]);
    assert("merges_url"@[1] != "mirror_url"@[1]);
    assert("archive_url"@[0] != "description"@[0]);
    assert("issues_url"@[0] != "mirror_url"@[0]);
    assert("labels_url"@[0] != "mirror_url"@[0]);
    assert("created_at"@[0] != "mirror_url"@[0]);
    assert("updated_at"@[0] != "mirror_url"@[0]);
    assert("git_url"@[0] != "license"@[0]);
    assert("ssh_url"@[0] != "license"@[0]);
    assert("svn_url"@[0] != "license"@[0]);
    assert("has_issues"@[0] != "mirror_url"@[0]);
    assert("has_wiki"@[1] != "homepage"@[1]);
    assert("has_wiki"@[0] != "language"@[0]);
    assert("forks_count"@[0] != "description"@[0]);
    assert("archived"@[0] != "homepage"@[0]);
    assert("archived"@[0] != "language"@[0]);
    assert("disabled"@[0] != "homepage"@[0]);
    assert("disabled"@[0] != "language"@[0]);
    assert("is_template"@[0] != "description"@[0]);
    assert("visibility"@[0] != "mirror_url"@[0]);
    assert("open_issues"@[0] != "description"@[0]);
    assert("watchers"@[0] != "homepage"@[0]);
    assert("watchers"@[0] != "language"@[0]);
    assert("stargazers"@[0] != "mirror_url"@[0]);
}

/// A document that lacks a required member cannot be read as a
/// `GitHubPayloadBody`.
pub proof fn lemma_github_payload_body_needs_its_members(json: JsonValue, key: Seq<char>)
    requires
        GitHubPayloadBody::requires_member(key),
        json.member(key) is None,
    ensures
        !GitHubPayloadBody::decodable(json),
{
}

/// A member that a `GitHubPayloadBody` can do without may be absent, `null`
/// or any string: a document that can be read stays readable when such a
/// member is changed from one of these to another and all else is left as
/// it was.
pub proof fn lemma_github_payload_body_optional_member_is_free(
    before: JsonValue,
    after: JsonValue,
    key: Seq<char>,
)
    requires
        GitHubPayloadBody::decodable(before),
        GitHubPayloadBody::optional_member(key),
        agree_except(before, after, key),
        after.optional_text(key) is Some,
    ensures
        GitHubPayloadBody::decodable(after),
{
    reveal_strlit("ref");
    reveal_strlit("before");
    reveal_strlit("after");
    reveal_strlit("repository");
    reveal_strlit("pusher");
    reveal_strlit("sender");
    reveal_strlit("created");
    reveal_strlit("deleted");
    reveal_strlit("forced");
    reveal_strlit("base_ref");
    reveal_strlit("compare");
    reveal_strlit("commits");
    reveal_strlit("head_commit");
    assert("ref"@.len() == 3);
    assert("before"@.len() == 6);
    assert("after"@.len() == 5);
    assert("repository"@.len() == 10);
    assert("pusher"@.len() == 6);
    assert("sender"@.len() == 6);
    assert("created"@.len() == 7);
    assert("deleted"@.len() == 7);
    assert("forced"@.len() == 6);
    assert("base_ref"@.len() == 8);
    assert("compare"@.len() == 7);
    assert("commits"@.len() == 7);
    assert("head_commit"@.len() == 11);
}

} // verus!
