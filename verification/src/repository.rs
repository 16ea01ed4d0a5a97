//! Repositories and their alert counts, and what one answer of the provider
//! makes of a repository.

use crate::decimal::{decimal, push_decimal, push_truth, truth_text};
use crate::dependabot::{
    line_texts,
    Dependabot,
    DependabotSeverity,
    DependabotState,
    GithubDependabot,
};
use vstd::prelude::*;

verus! {

/// A repository as the provider lists it.
#[derive(Debug)]
pub struct GitHubRepository {
    pub id: u32,
    pub name: String,
    pub full_name: String,
    pub private: bool,
    pub html_url: String,
    pub archived: bool,
}

/// A repository with its alerts and the counts of its open alerts.
#[derive(Debug)]
pub struct Repository {
    pub id: u32,
    pub name: String,
    pub full_name: String,
    pub private: bool,
    pub url: String,
    pub archived: bool,
    pub dependabots: Vec<Dependabot>,
    pub low_alerts: usize,
    pub medium_alerts: usize,
    pub high_alerts: usize,
    pub critical_alerts: usize,
    pub total_active_alerts: usize,
}

/// What a repository holds: its values, with the alerts as a sequence.
pub struct RepositoryView {
    pub id: u32,
    pub name: String,
    pub full_name: String,
    pub private: bool,
    pub url: String,
    pub archived: bool,
    pub dependabots: Seq<Dependabot>,
    pub low_alerts: usize,
    pub medium_alerts: usize,
    pub high_alerts: usize,
    pub critical_alerts: usize,
    pub total_active_alerts: usize,
}

impl View for Repository {
    type V = RepositoryView;

    open spec fn view(&self) -> RepositoryView {
        RepositoryView {
            id: self.id,
            name: self.name,
            full_name: self.full_name,
            private: self.private,
            url: self.url,
            archived: self.archived,
            dependabots: self.dependabots@,
            low_alerts: self.low_alerts,
            medium_alerts: self.medium_alerts,
            high_alerts: self.high_alerts,
            critical_alerts: self.critical_alerts,
            total_active_alerts: self.total_active_alerts,
        }
    }
}

/// Whether an alert is open and of the given severity.
pub open spec fn counts_as(alert: Dependabot, severity: DependabotSeverity) -> bool {
    alert.is_open() && alert.severity == severity
}

/// The number of open alerts of one severity.
pub open spec fn open_alerts(alerts: Seq<Dependabot>, severity: DependabotSeverity) -> nat
    decreases alerts.len(),
{
    if alerts.len() == 0 {
        0
    } else {
        open_alerts(alerts.drop_last(), severity) + if counts_as(alerts.last(), severity) {
            1nat
        } else {
            0nat
        }
    }
}

/// The number of open alerts.
pub open spec fn open_total(alerts: Seq<Dependabot>) -> nat
    decreases alerts.len(),
{
    if alerts.len() == 0 {
        0
    } else {
        open_total(alerts.drop_last()) + if alerts.last().is_open() {
            1nat
        } else {
            0nat
        }
    }
}

/// The alerts that the dashboard keeps for the records of the provider, in their order.
pub open spec fn flattened_all(records: Seq<GithubDependabot>) -> Seq<Dependabot> {
    records.map_values(|record: GithubDependabot| record.flattened())
}

/// The four severities part the open alerts: their counts add up to the number
/// of open alerts, which is at most the number of alerts.
pub proof fn lemma_counts_partition(alerts: Seq<Dependabot>)
    ensures
        open_alerts(alerts, DependabotSeverity::Low) + open_alerts(
            alerts,
            DependabotSeverity::Medium,
        ) + open_alerts(alerts, DependabotSeverity::High) + open_alerts(
            alerts,
            DependabotSeverity::Critical,
        ) == open_total(alerts),
        open_total(alerts) <= alerts.len(),
    decreases alerts.len(),
{
    if alerts.len() > 0 {
        lemma_counts_partition(alerts.drop_last());
    }
}

/// Alerts that are not open change no count.
pub proof fn lemma_closed_alerts_count_nothing(alerts: Seq<Dependabot>)
    requires
        forall|i: int| 0 <= i < alerts.len() ==> !(#[trigger] alerts[i]).is_open(),
    ensures
        open_total(alerts) == 0,
        forall|severity: DependabotSeverity| open_alerts(alerts, severity) == 0,
    decreases alerts.len(),
{
    if alerts.len() > 0 {
        lemma_closed_alerts_count_nothing(alerts.drop_last());
        assert(!alerts[alerts.len() - 1].is_open());
    }
    assert forall|severity: DependabotSeverity| open_alerts(alerts, severity) == 0 by {
        if alerts.len() > 0 {
            assert(open_alerts(alerts.drop_last(), severity) == 0);
        }
    }
}

impl Clone for GitHubRepository {
    fn clone(&self) -> (copy: Self)
        ensures
            copy == *self,
    {
        GitHubRepository {
            id: self.id,
            name: self.name.clone(),
            full_name: self.full_name.clone(),
            private: self.private,
            html_url: self.html_url.clone(),
            archived: self.archived,
        }
    }
}

impl Clone for Repository {
    fn clone(&self) -> (copy: Self)
        ensures
            copy@ == self@,
    {
        let dependabots = self.dependabots.clone();
        assert(dependabots@ =~= self.dependabots@);
        Repository {
            id: self.id,
            name: self.name.clone(),
            full_name: self.full_name.clone(),
            private: self.private,
            url: self.url.clone(),
            archived: self.archived,
            dependabots,
            low_alerts: self.low_alerts,
            medium_alerts: self.medium_alerts,
            high_alerts: self.high_alerts,
            critical_alerts: self.critical_alerts,
            total_active_alerts: self.total_active_alerts,
        }
    }
}

/// Turns the records of the provider into the alerts that the dashboard keeps.
pub fn flatten_alerts(records: Vec<GithubDependabot>) -> (alerts: Vec<Dependabot>)
    ensures
        alerts@ == flattened_all(records@),
{
    let ghost all = records@;
    let mut alerts: Vec<Dependabot> = Vec::new();
    for record in iter: records
        invariant
            iter.seq() == all,
            alerts@ == flattened_all(all.take(iter.index() as int)),
    {
        proof {
            let n = iter.index() as int;
            assert(all.take(n + 1).drop_last() =~= all.take(n));
            assert(flattened_all(all.take(n + 1)) =~= flattened_all(all.take(n)).push(
                record.flattened(),
            ));
        }
        alerts.push(Dependabot::from_github(record));
    }
    proof {
        assert(all.take(all.len() as int) =~= all);
    }
    alerts
}

impl Repository {
    /// The counts are those of the open alerts, by severity, and the total is their sum.
    pub open spec fn counts_agree(&self) -> bool {
        &&& self.low_alerts == open_alerts(self.dependabots@, DependabotSeverity::Low)
        &&& self.medium_alerts == open_alerts(self.dependabots@, DependabotSeverity::Medium)
        &&& self.high_alerts == open_alerts(self.dependabots@, DependabotSeverity::High)
        &&& self.critical_alerts == open_alerts(self.dependabots@, DependabotSeverity::Critical)
        &&& self.total_active_alerts == self.low_alerts + self.medium_alerts + self.high_alerts
            + self.critical_alerts
    }

    /// The repository that the provider listed, with the given alerts.
    pub open spec fn describes(&self, listed: GitHubRepository, alerts: Seq<Dependabot>) -> bool {
        &&& self.id == listed.id
        &&& self.name == listed.name
        &&& self.full_name == listed.full_name
        &&& self.private == listed.private
        &&& self.url == listed.html_url
        &&& self.archived == listed.archived
        &&& self.dependabots@ == alerts
        &&& self.counts_agree()
    }

    /// A listed repository with its alerts; the counts are taken from the alerts.
    pub fn with_alerts(listed: &GitHubRepository, alerts: Vec<Dependabot>) -> (repository:
        Repository)
        ensures
            repository.describes(*listed, alerts@),
            repository.total_active_alerts == open_total(alerts@),
    {
        let mut low: usize = 0;
        let mut medium: usize = 0;
        let mut high: usize = 0;
        let mut critical: usize = 0;
        let mut i: usize = 0;
        while i < alerts.len()
            invariant
                i <= alerts.len(),
                low == open_alerts(alerts@.take(i as int), DependabotSeverity::Low),
                medium == open_alerts(alerts@.take(i as int), DependabotSeverity::Medium),
                high == open_alerts(alerts@.take(i as int), DependabotSeverity::High),
                critical == open_alerts(alerts@.take(i as int), DependabotSeverity::Critical),
            decreases alerts.len() - i,
        {
            proof {
                assert(alerts@.take(i + 1).drop_last() =~= alerts@.take(i as int));
                lemma_counts_partition(alerts@.take(i + 1));
            }
            if alerts[i].state == DependabotState::Open {
                match alerts[i].severity {
                    DependabotSeverity::Low => {
                        low += 1;
                    },
                    DependabotSeverity::Medium => {
                        medium += 1;
                    },
                    DependabotSeverity::High => {
                        high += 1;
                    },
                    DependabotSeverity::Critical => {
                        critical += 1;
                    },
                }
            }
            i += 1;
        }
        proof {
            assert(alerts@.take(i as int) =~= alerts@);
            lemma_counts_partition(alerts@);
        }
        Repository {
            id: listed.id,
            name: listed.name.clone(),
            full_name: listed.full_name.clone(),
            private: listed.private,
            url: listed.html_url.clone(),
            archived: listed.archived,
            dependabots: alerts,
            low_alerts: low,
            medium_alerts: medium,
            high_alerts: high,
            critical_alerts: critical,
            total_active_alerts: low + medium + high + critical,
        }
    }
}

/// The width to which the names in the repository list are filled up.
pub const NAME_COLUMN_WIDTH: usize = 35;

/// A run of blanks.
pub open spec fn blanks(count: nat) -> Seq<char> {
    Seq::new(count, |i: int| ' ')
}

/// A text, filled up with blanks at its end to the given width; a longer text is kept whole.
pub open spec fn padded(text: Seq<char>, width: nat) -> Seq<char> {
    if text.len() >= width {
        text
    } else {
        text + blanks((width - text.len()) as nat)
    }
}

impl RepositoryView {
    /// The line that stands for the repository in the list: its name in a
    /// column of fixed width, and the number of its open alerts.
    pub open spec fn list_entry(self) -> Seq<char> {
        padded(self.name@, NAME_COLUMN_WIDTH as nat) + " : "@ + decimal(
            self.total_active_alerts as nat,
        ) + " alerts"@
    }

    /// The lines that describe the repository on its own screen.
    pub open spec fn text_lines(self) -> Seq<Seq<char>> {
        seq![
            "ID: "@ + decimal(self.id as nat),
            "Name: "@ + self.name@,
            "Private: "@ + truth_text(self.private),
            "URL: "@ + self.url@,
            "Archived: "@ + truth_text(self.archived),
            "Total active alerts: "@ + decimal(self.total_active_alerts as nat),
        ]
    }
}

impl Repository {
    /// The line that stands for the repository in the list.
    pub fn list_entry(&self) -> (entry: String)
        ensures
            entry@ == self@.list_entry(),
    {
        let mut entry = self.name.clone();
        let length = self.name.as_str().unicode_len();
        let mut filled = length;
        proof {
            reveal_strlit(" ");
            assert(entry@ =~= self.name@ + blanks(0));
        }
        while filled < NAME_COLUMN_WIDTH
            invariant
                length == self.name@.len(),
                length <= filled,
                length < NAME_COLUMN_WIDTH ==> filled <= NAME_COLUMN_WIDTH,
                length >= NAME_COLUMN_WIDTH ==> filled == length,
                entry@ == self.name@ + blanks((filled - length) as nat),
                " "@ == seq![' '],
            decreases NAME_COLUMN_WIDTH - filled,
        {
            entry.append(" ");
            proof {
                assert(self.name@ + blanks((filled - length) as nat) + seq![' '] =~= self.name@
                    + blanks((filled + 1 - length) as nat));
            }
            filled += 1;
        }
        proof {
            assert(entry@ =~= padded(self.name@, NAME_COLUMN_WIDTH as nat));
        }
        entry.append(" : ");
        push_decimal(&mut entry, self.total_active_alerts as u64);
        entry.append(" alerts");
        entry
    }

    /// The lines that describe the repository on its own screen, one `String` per line.
    pub fn to_text(&self) -> (lines: Vec<String>)
        ensures
            line_texts(lines@) == self@.text_lines(),
    {
        let mut lines: Vec<String> = Vec::new();
        let mut id = String::from_str("ID: ");
        push_decimal(&mut id, self.id as u64);
        lines.push(id);
        lines.push(String::from_str("Name: ").concat(self.name.as_str()));
        let mut private = String::from_str("Private: ");
        push_truth(&mut private, self.private);
        lines.push(private);
        lines.push(String::from_str("URL: ").concat(self.url.as_str()));
        let mut archived = String::from_str("Archived: ");
        push_truth(&mut archived, self.archived);
        lines.push(archived);
        let mut total = String::from_str("Total active alerts: ");
        push_decimal(&mut total, self.total_active_alerts as u64);
        lines.push(total);
        assert(line_texts(lines@) =~= self@.text_lines());
        lines
    }
}

/// Whether a status code of the provider's answer is a client error (4xx).
pub open spec fn is_client_error(status: u16) -> bool {
    400 <= status < 500
}

/// What came back when the provider was asked for the alerts of a repository.
#[derive(Debug)]
pub enum AlertsAnswer {
    /// The request failed before an answer came; `message` says how.
    Unreachable { message: String },
    /// An answer came, with this status code; `records` holds the alerts
    /// that were read from it, if any could be read.
    Answered { status: u16, records: Option<Vec<GithubDependabot>> },
}

/// What the request for the alerts of one repository comes to: the
/// repository, nothing where the repository is left out, or the message of
/// the failure that ends the refresh.
pub type FetchOutcome = Result<Option<Repository>, String>;

/// What the answer of the provider makes of a listed repository.
///
/// A request that failed before an answer came fails the refresh, with its
/// message. A client error means that alerts are switched off for the
/// repository: it is kept, with no alerts. Any other status keeps it with the
/// alerts that were read from the answer, and leaves it out where none could
/// be read.
pub open spec fn fetched(
    outcome: FetchOutcome,
    listed: GitHubRepository,
    answer: AlertsAnswer,
) -> bool {
    match answer {
        AlertsAnswer::Unreachable { message } => outcome matches Err(m) && m == message,
        AlertsAnswer::Answered { status, records } => {
            if is_client_error(status) {
                outcome matches Ok(Some(r)) && r.describes(listed, Seq::empty())
            } else {
                match records {
                    Some(found) => outcome matches Ok(Some(r)) && r.describes(
                        listed,
                        flattened_all(found@),
                    ),
                    None => outcome matches Ok(None),
                }
            }
        },
    }
}

/// The message of the first failure among the outcomes, if any of them is a failure.
pub open spec fn first_failure(outcomes: Seq<FetchOutcome>) -> Option<String>
    decreases outcomes.len(),
{
    if outcomes.len() == 0 {
        None
    } else {
        match first_failure(outcomes.drop_last()) {
            Some(message) => Some(message),
            None => match outcomes.last() {
                Err(message) => Some(message),
                Ok(_) => None,
            },
        }
    }
}

/// The repositories that were kept, in their order.
pub open spec fn kept(outcomes: Seq<FetchOutcome>) -> Seq<Repository>
    decreases outcomes.len(),
{
    if outcomes.len() == 0 {
        Seq::empty()
    } else {
        match outcomes.last() {
            Ok(Some(repository)) => kept(outcomes.drop_last()).push(repository),
            _ => kept(outcomes.drop_last()),
        }
    }
}

/// What the outcomes of all requests come to: the message of the first
/// failure, if one of them failed, and else the repositories that were kept.
pub open spec fn gathered(
    result: Result<Vec<Repository>, String>,
    outcomes: Seq<FetchOutcome>,
) -> bool {
    match first_failure(outcomes) {
        Some(message) => result matches Err(m) && m == message,
        None => result matches Ok(repositories) && repositories@ == kept(outcomes),
    }
}

/// The outcome at `at` is a failure with this message, and no outcome before it is one.
pub open spec fn fails_first_at(outcomes: Seq<FetchOutcome>, at: int, message: String) -> bool {
    &&& 0 <= at < outcomes.len()
    &&& outcomes[at] matches Err(m) && m == message
    &&& forall|before: int| 0 <= before < at ==> (#[trigger] outcomes[before]) is Ok
}

/// There is a first failure if and only if some outcome is a failure, and its
/// message is that of the earliest one, which stands at the place returned.
pub proof fn lemma_first_failure_is_first(outcomes: Seq<FetchOutcome>) -> (at: int)
    ensures
        first_failure(outcomes) matches Some(message) ==> fails_first_at(outcomes, at, message),
        first_failure(outcomes) is None ==> forall|i: int|
            0 <= i < outcomes.len() ==> (#[trigger] outcomes[i]) is Ok,
    decreases outcomes.len(),
{
    if outcomes.len() == 0 {
        0
    } else {
        let earlier = outcomes.drop_last();
        let last = outcomes.len() - 1;
        let at = lemma_first_failure_is_first(earlier);
        assert forall|i: int| 0 <= i < last implies #[trigger] outcomes[i] == earlier[i] by {}
        if first_failure(earlier) is Some {
            at
        } else {
            last
        }
    }
}

/// A failure among the first outcomes is the first failure of all of them.
proof fn lemma_failure_in_prefix(outcomes: Seq<FetchOutcome>, count: int)
    requires
        0 <= count <= outcomes.len(),
        first_failure(outcomes.take(count)) is Some,
    ensures
        first_failure(outcomes) == first_failure(outcomes.take(count)),
    decreases outcomes.len(),
{
    if count == outcomes.len() {
        assert(outcomes.take(count) =~= outcomes);
    } else {
        assert(outcomes.drop_last().take(count) =~= outcomes.take(count));
        lemma_failure_in_prefix(outcomes.drop_last(), count);
    }
}

impl Repository {
    /// A listed repository for which alerts are switched off: no alerts, all counts zero.
    pub fn without_alerts(listed: &GitHubRepository) -> (repository: Repository)
        ensures
            repository.describes(*listed, Seq::empty()),
            repository.total_active_alerts == 0,
    {
        Repository::with_alerts(listed, Vec::new())
    }

    /// What the answer of the provider makes of a listed repository.
    pub fn from_fetch(listed: &GitHubRepository, answer: AlertsAnswer) -> (outcome: FetchOutcome)
        ensures
            fetched(outcome, *listed, answer),
    {
        match answer {
            AlertsAnswer::Unreachable { message } => Err(message),
            AlertsAnswer::Answered { status, records } => {
                if 400 <= status && status < 500 {
                    Ok(Some(Repository::without_alerts(listed)))
                } else {
                    match records {
                        Some(found) => Ok(
                            Some(Repository::with_alerts(listed, flatten_alerts(found))),
                        ),
                        None => Ok(None),
                    }
                }
            },
        }
    }
}

/// Gathers the outcomes of all requests of a refresh. One failure fails the
/// refresh, with the message of the first one; without a failure the
/// repositories that were kept come back in their order.
pub fn keep_fetched(outcomes: Vec<FetchOutcome>) -> (result: Result<Vec<Repository>, String>)
    ensures
        gathered(result, outcomes@),
        result is Err <==> exists|at: int|
            0 <= at < outcomes@.len() && (#[trigger] outcomes@[at]) is Err,
        result matches Err(message) ==> exists|at: int| fails_first_at(outcomes@, at, message),
{
    let ghost all = outcomes@;
    let mut repositories: Vec<Repository> = Vec::new();
    for outcome in iter: outcomes
        invariant
            iter.seq() == all,
            first_failure(all.take(iter.index() as int)) is None,
            repositories@ == kept(all.take(iter.index() as int)),
    {
        proof {
            let n = iter.index() as int;
            assert(all.take(n + 1).drop_last() =~= all.take(n));
            assert(all.take(n + 1).last() == outcome);
        }
        match outcome {
            Ok(Some(repository)) => {
                repositories.push(repository);
            },
            Ok(None) => {},
            Err(message) => {
                proof {
                    lemma_failure_in_prefix(all, iter.index() as int + 1);
                    let at = lemma_first_failure_is_first(all);
                    assert(fails_first_at(all, at, message));
                    assert(all[at] is Err);
                }
                return Err(message);
            },
        }
    }
    proof {
        assert(all.take(all.len() as int) =~= all);
        lemma_first_failure_is_first(all);
    }
    Ok(repositories)
}

} // verus!
