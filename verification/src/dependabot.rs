//! Dependency alerts: the record that the provider sends, the record that the
//! dashboard keeps, and the text block that a detail view shows for one alert.

use crate::decimal::{decimal, push_decimal};
use vstd::prelude::*;

verus! {

/// Where an alert stands in its life cycle.
#[derive(Debug, Clone, Copy, PartialEq, Eq, Structural)]
pub enum DependabotState {
    AutoDismissed,
    Dismissed,
    Fixed,
    Open,
}

/// How severe an alert is: low < medium < high < critical.
#[derive(Debug, Clone, Copy, PartialEq, Eq, Structural)]
pub enum DependabotSeverity {
    Low,
    Medium,
    High,
    Critical,
}

impl DependabotState {
    /// The name of the state as it is shown.
    pub open spec fn name(self) -> Seq<char> {
        match self {
            DependabotState::AutoDismissed => "AutoDismissed"@,
            DependabotState::Dismissed => "Dismissed"@,
            DependabotState::Fixed => "Fixed"@,
            DependabotState::Open => "Open"@,
        }
    }

    pub fn to_string(&self) -> (text: String)
        ensures
            text@ == self.name(),
    {
        match self {
            DependabotState::AutoDismissed => String::from_str("AutoDismissed"),
            DependabotState::Dismissed => String::from_str("Dismissed"),
            DependabotState::Fixed => String::from_str("Fixed"),
            DependabotState::Open => String::from_str("Open"),
        }
    }
}

impl DependabotSeverity {
    /// The name of the severity as it is shown.
    pub open spec fn name(self) -> Seq<char> {
        match self {
            DependabotSeverity::Low => "Low"@,
            DependabotSeverity::Medium => "Medium"@,
            DependabotSeverity::High => "High"@,
            DependabotSeverity::Critical => "Critical"@,
        }
    }

    /// The place of the severity in the order low < medium < high < critical.
    pub open spec fn spec_rank(self) -> nat {
        match self {
            DependabotSeverity::Low => 0,
            DependabotSeverity::Medium => 1,
            DependabotSeverity::High => 2,
            DependabotSeverity::Critical => 3,
        }
    }

    pub fn to_string(&self) -> (text: String)
        ensures
            text@ == self.name(),
    {
        match self {
            DependabotSeverity::Low => String::from_str("Low"),
            DependabotSeverity::Medium => String::from_str("Medium"),
            DependabotSeverity::High => String::from_str("High"),
            DependabotSeverity::Critical => String::from_str("Critical"),
        }
    }

    pub fn rank(&self) -> (r: u8)
        ensures
            r == self.spec_rank(),
    {
        match self {
            DependabotSeverity::Low => 0,
            DependabotSeverity::Medium => 1,
            DependabotSeverity::High => 2,
            DependabotSeverity::Critical => 3,
        }
    }
}

/// The package that an alert is about, as the provider sends it.
#[derive(Debug)]
pub struct Package {
    pub ecosystem: String,
    pub name: String,
}

/// The vulnerability of an alert, as the provider sends it.
#[derive(Debug)]
pub struct SecurityVulnerability {
    pub severity: DependabotSeverity,
    pub package: Package,
}

/// One alert as the provider sends it.
#[derive(Debug)]
pub struct GithubDependabot {
    pub number: u32,
    pub state: DependabotState,
    pub security_vulnerability: SecurityVulnerability,
    pub html_url: String,
    pub created_at: String,
    pub updated_at: String,
    pub dismissed_at: Option<String>,
}

/// One alert as the dashboard keeps it.
#[derive(Debug)]
pub struct Dependabot {
    pub number: u32,
    pub state: DependabotState,
    pub severity: DependabotSeverity,
    pub html_url: String,
    pub created_at: String,
    pub updated_at: String,
    pub dismissed_at: Option<String>,
    pub dependency_ecosystem: String,
    pub dependency_name: String,
}

/// The number of lines in the text block of one alert.
pub const LINES_PER_ALERT: usize = 10;

/// The rule that opens the text block of an alert: twenty dashes.
pub open spec fn rule_text() -> Seq<char> {
    "--------------------"@
}

impl Clone for Package {
    fn clone(&self) -> (copy: Self)
        ensures
            copy == *self,
    {
        Package { ecosystem: self.ecosystem.clone(), name: self.name.clone() }
    }
}

impl Clone for SecurityVulnerability {
    fn clone(&self) -> (copy: Self)
        ensures
            copy == *self,
    {
        SecurityVulnerability { severity: self.severity, package: self.package.clone() }
    }
}

fn clone_optional_text(text: &Option<String>) -> (copy: Option<String>)
    ensures
        copy == *text,
{
    match text {
        Some(t) => Some(t.clone()),
        None => None,
    }
}

impl Clone for GithubDependabot {
    fn clone(&self) -> (copy: Self)
        ensures
            copy == *self,
    {
        GithubDependabot {
            number: self.number,
            state: self.state,
            security_vulnerability: self.security_vulnerability.clone(),
            html_url: self.html_url.clone(),
            created_at: self.created_at.clone(),
            updated_at: self.updated_at.clone(),
            dismissed_at: clone_optional_text(&self.dismissed_at),
        }
    }
}

impl Clone for Dependabot {
    fn clone(&self) -> (copy: Self)
        ensures
            copy == *self,
    {
        Dependabot {
            number: self.number,
            state: self.state,
            severity: self.severity,
            html_url: self.html_url.clone(),
            created_at: self.created_at.clone(),
            updated_at: self.updated_at.clone(),
            dismissed_at: clone_optional_text(&self.dismissed_at),
            dependency_ecosystem: self.dependency_ecosystem.clone(),
            dependency_name: self.dependency_name.clone(),
        }
    }
}

impl GithubDependabot {
    /// The alert that the dashboard keeps for this record: the same values,
    /// with the vulnerability and its package flattened into the alert.
    pub open spec fn flattened(self) -> Dependabot {
        Dependabot {
            number: self.number,
            state: self.state,
            severity: self.security_vulnerability.severity,
            html_url: self.html_url,
            created_at: self.created_at,
            updated_at: self.updated_at,
            dismissed_at: self.dismissed_at,
            dependency_ecosystem: self.security_vulnerability.package.ecosystem,
            dependency_name: self.security_vulnerability.package.name,
        }
    }
}

impl Dependabot {
    /// Turns a record of the provider into the alert that the dashboard keeps.
    pub fn from_github(record: GithubDependabot) -> (alert: Dependabot)
        ensures
            alert == record.flattened(),
    {
        Dependabot {
            number: record.number,
            state: record.state,
            severity: record.security_vulnerability.severity,
            html_url: record.html_url,
            created_at: record.created_at,
            updated_at: record.updated_at,
            dismissed_at: record.dismissed_at,
            dependency_ecosystem: record.security_vulnerability.package.ecosystem,
            dependency_name: record.security_vulnerability.package.name,
        }
    }

    /// An alert counts for a repository while it is open.
    pub open spec fn is_open(self) -> bool {
        self.state == DependabotState::Open
    }

    /// The time of dismissal as it is shown: the time, or `N/A` where there is none.
    pub open spec fn dismissed_text(self) -> Seq<char> {
        match self.dismissed_at {
            Some(at) => at@,
            None => "N/A"@,
        }
    }

    /// The text block of the alert: a rule, then one labelled line per value.
    pub open spec fn text_lines(self) -> Seq<Seq<char>> {
        seq![
            rule_text(),
            "Number: "@ + decimal(self.number as nat),
            "State: "@ + self.state.name(),
            "Severity: "@ + self.severity.name(),
            "URL: "@ + self.html_url@,
            "Created At: "@ + self.created_at@,
            "Updated At: "@ + self.updated_at@,
            "Dismissed At: "@ + self.dismissed_text(),
            "Dependency Ecosystem: "@ + self.dependency_ecosystem@,
            "Dependency Name: "@ + self.dependency_name@,
        ]
    }

    /// The text block of the alert, one `String` per line.
    pub fn to_text(&self) -> (lines: Vec<String>)
        ensures
            lines@.len() == LINES_PER_ALERT,
            line_texts(lines@) == self.text_lines(),
    {
        let mut lines: Vec<String> = Vec::new();
        lines.push(String::from_str("--------------------"));
        let mut number = String::from_str("Number: ");
        push_decimal(&mut number, self.number as u64);
        lines.push(number);
        let state = self.state.to_string();
        lines.push(String::from_str("State: ").concat(state.as_str()));
        let severity = self.severity.to_string();
        lines.push(String::from_str("Severity: ").concat(severity.as_str()));
        lines.push(String::from_str("URL: ").concat(self.html_url.as_str()));
        lines.push(String::from_str("Created At: ").concat(self.created_at.as_str()));
        lines.push(String::from_str("Updated At: ").concat(self.updated_at.as_str()));
        let dismissed = match &self.dismissed_at {
            Some(at) => String::from_str("Dismissed At: ").concat(at.as_str()),
            None => String::from_str("Dismissed At: ").concat("N/A"),
        };
        lines.push(dismissed);
        lines.push(
            String::from_str("Dependency Ecosystem: ").concat(self.dependency_ecosystem.as_str()),
        );
        lines.push(String::from_str("Dependency Name: ").concat(self.dependency_name.as_str()));
        assert(line_texts(lines@) =~= self.text_lines());
        lines
    }
}

/// The texts of lines.
pub open spec fn line_texts(lines: Seq<String>) -> Seq<Seq<char>> {
    lines.map_values(|line: String| line@)
}

/// The text blocks of alerts, one after the other.
pub open spec fn alert_lines(alerts: Seq<Dependabot>) -> Seq<Seq<char>>
    decreases alerts.len(),
{
    if alerts.len() == 0 {
        Seq::empty()
    } else {
        alert_lines(alerts.drop_last()) + alerts.last().text_lines()
    }
}

/// The text blocks of alerts take one block of lines for each alert.
pub proof fn lemma_alert_lines_len(alerts: Seq<Dependabot>)
    ensures
        alert_lines(alerts).len() == alerts.len() * LINES_PER_ALERT,
    decreases alerts.len(),
{
    if alerts.len() > 0 {
        lemma_alert_lines_len(alerts.drop_last());
    }
}

/// The text blocks of the given alerts, one after the other, one `String` per line.
pub fn alerts_text(alerts: &Vec<Dependabot>) -> (lines: Vec<String>)
    ensures
        line_texts(lines@) == alert_lines(alerts@),
        lines@.len() == alerts@.len() * LINES_PER_ALERT,
{
    let mut lines: Vec<String> = Vec::new();
    let mut i: usize = 0;
    while i < alerts.len()
        invariant
            i <= alerts.len(),
            line_texts(lines@) == alert_lines(alerts@.take(i as int)),
        decreases alerts.len() - i,
    {
        let mut block = alerts[i].to_text();
        proof {
            assert(alerts@.take(i + 1).drop_last() =~= alerts@.take(i as int));
            assert(line_texts(lines@ + block@) =~= line_texts(lines@) + line_texts(block@));
        }
        lines.append(&mut block);
        i += 1;
    }
    proof {
        assert(alerts@.take(i as int) =~= alerts@);
        lemma_alert_lines_len(alerts@);
        assert(line_texts(lines@).len() == lines@.len());
    }
    lines
}

} // verus!
