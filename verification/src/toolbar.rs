//! The items that can be arranged in the agent toolbar, which footer each may
//! appear in, and the default arrangements.

use vstd::prelude::*;

verus! {

/// The icons the toolbar and its neighbours draw.
#[derive(Clone, Copy, Debug, PartialEq, Eq, Hash, Structural)]
pub enum Icon {
    Plus,
    FileCopy,
    TextInput,
    Globe,
    Folder,
    GitBranch,
    Diff,
    Github,
    Check,
    Loading,
    SlashCircle,
    AlertTriangle,
    LinkExternal,
    ArrowSplit,
}

/// The prompt context chips.
#[derive(Clone, Copy, Debug, PartialEq, Eq, Hash, Structural)]
pub enum ContextChipKind {
    Ssh,
    WorkingDirectory,
    ShellGitBranch,
    GitDiffStats,
    GithubPullRequest,
}

/// The icon each chip is drawn with.
pub open spec fn chip_icon(kind: ContextChipKind) -> Icon {
    match kind {
        ContextChipKind::Ssh => Icon::Globe,
        ContextChipKind::WorkingDirectory => Icon::Folder,
        ContextChipKind::ShellGitBranch => Icon::GitBranch,
        ContextChipKind::GitDiffStats => Icon::Diff,
        ContextChipKind::GithubPullRequest => Icon::Github,
    }
}

impl ContextChipKind {
    /// The icon the chip is drawn with in the toolbar.
    pub fn udi_icon(&self) -> (icon: Option<Icon>)
        ensures
            icon == Some(chip_icon(*self)),
    {
        match self {
            ContextChipKind::Ssh => Some(Icon::Globe),
            ContextChipKind::WorkingDirectory => Some(Icon::Folder),
            ContextChipKind::ShellGitBranch => Some(Icon::GitBranch),
            ContextChipKind::GitDiffStats => Some(Icon::Diff),
            ContextChipKind::GithubPullRequest => Some(Icon::Github),
        }
    }
}

/// Every chip, in the order the configurators list them.
pub open spec fn every_chip() -> Seq<ContextChipKind> {
    seq![
        ContextChipKind::Ssh,
        ContextChipKind::WorkingDirectory,
        ContextChipKind::ShellGitBranch,
        ContextChipKind::GitDiffStats,
        ContextChipKind::GithubPullRequest,
    ]
}

/// The chips offered by the agent view footer configurator.
pub fn agent_footer_available_chips() -> (chips: Vec<ContextChipKind>)
    ensures
        chips@ == every_chip(),
{
    available_chips()
}

/// The chips offered by the CLI agent footer configurator.
pub fn available_chips() -> (chips: Vec<ContextChipKind>)
    ensures
        chips@ == every_chip(),
{
    let mut chips = Vec::new();
    chips.push(ContextChipKind::Ssh);
    chips.push(ContextChipKind::WorkingDirectory);
    chips.push(ContextChipKind::ShellGitBranch);
    chips.push(ContextChipKind::GitDiffStats);
    chips.push(ContextChipKind::GithubPullRequest);
    assert(chips@ =~= every_chip());
    chips
}

/// Which footer(s) a toolbar item is available in.
#[derive(Clone, Copy, Debug, PartialEq, Eq, Structural)]
pub enum ToolbarAvailability {
    CLIAgentOnly,
    Both,
}

impl ToolbarAvailability {
    pub fn is_available_for_agent_view(self) -> (available: bool)
        ensures
            available == (self == ToolbarAvailability::Both),
    {
        match self {
            ToolbarAvailability::Both => true,
            ToolbarAvailability::CLIAgentOnly => false,
        }
    }

    pub fn is_available_for_cli(self) -> (available: bool)
        ensures
            available,
    {
        match self {
            ToolbarAvailability::CLIAgentOnly | ToolbarAvailability::Both => true,
        }
    }
}

/// The footer being configured.
#[derive(Clone, Copy, Debug, PartialEq, Eq, Structural)]
pub enum AgentToolbarEditorMode {
    AgentView,
    CLIAgent,
}

/// An item of the toolbar: a context chip or a control button, arranged
/// through the same editor.
#[derive(Clone, Copy, Debug, PartialEq, Eq, Hash, Structural)]
pub enum AgentToolbarItemKind {
    ContextChip(ContextChipKind),
    // CLI agent only
    FileExplorer,
    RichInput,
    // Both
    FileAttach,
}

/// The footers `item` may appear in.
pub open spec fn availability_of(item: AgentToolbarItemKind) -> ToolbarAvailability {
    match item {
        AgentToolbarItemKind::ContextChip(_) | AgentToolbarItemKind::FileAttach => {
            ToolbarAvailability::Both
        },
        AgentToolbarItemKind::FileExplorer | AgentToolbarItemKind::RichInput => {
            ToolbarAvailability::CLIAgentOnly
        },
    }
}

/// The default left side of the agent view footer.
pub open spec fn default_left_items() -> Seq<AgentToolbarItemKind> {
    every_chip().map_values(|c: ContextChipKind| AgentToolbarItemKind::ContextChip(c))
}

/// The default right side of the agent view footer.
pub open spec fn default_right_items() -> Seq<AgentToolbarItemKind> {
    seq![AgentToolbarItemKind::FileAttach]
}

/// Every item of the agent view footer configurator.
pub open spec fn all_available_items() -> Seq<AgentToolbarItemKind> {
    every_chip().map_values(|c: ContextChipKind| AgentToolbarItemKind::ContextChip(c)).push(
        AgentToolbarItemKind::FileAttach,
    )
}

/// The default left side of the CLI agent footer.
pub open spec fn cli_default_left_items() -> Seq<AgentToolbarItemKind> {
    seq![
        AgentToolbarItemKind::FileAttach,
        AgentToolbarItemKind::ContextChip(ContextChipKind::GitDiffStats),
        AgentToolbarItemKind::FileExplorer,
        AgentToolbarItemKind::RichInput,
    ]
}

/// The default right side of the CLI agent footer.
pub open spec fn cli_default_right_items() -> Seq<AgentToolbarItemKind> {
    seq![
        AgentToolbarItemKind::ContextChip(ContextChipKind::WorkingDirectory),
        AgentToolbarItemKind::ContextChip(ContextChipKind::ShellGitBranch),
    ]
}

/// Every item of the CLI agent footer configurator.
pub open spec fn all_available_cli_items() -> Seq<AgentToolbarItemKind> {
    every_chip().map_values(|c: ContextChipKind| AgentToolbarItemKind::ContextChip(c)) + seq![
        AgentToolbarItemKind::FileExplorer,
        AgentToolbarItemKind::RichInput,
        AgentToolbarItemKind::FileAttach,
    ]
}

/// The chips of `chips` as toolbar items.
fn chip_items(chips: Vec<ContextChipKind>) -> (items: Vec<AgentToolbarItemKind>)
    ensures
        items@ == chips@.map_values(|c: ContextChipKind| AgentToolbarItemKind::ContextChip(c)),
{
    let mut items: Vec<AgentToolbarItemKind> = Vec::new();
    let mut i: usize = 0;
    while i < chips.len()
        invariant
            i <= chips.len(),
            items@ == chips@.subrange(0, i as int).map_values(
                |c: ContextChipKind| AgentToolbarItemKind::ContextChip(c),
            ),
        decreases chips.len() - i,
    {
        items.push(AgentToolbarItemKind::ContextChip(chips[i]));
        assert(items@ =~= chips@.subrange(0, i + 1).map_values(
            |c: ContextChipKind| AgentToolbarItemKind::ContextChip(c),
        ));
        i += 1;
    }
    assert(chips@.subrange(0, chips.len() as int) =~= chips@);
    items
}

impl AgentToolbarItemKind {
    /// Whether the item is a control of the local agent view footer.
    pub fn is_local_agent_view_control(&self) -> (control: bool)
        ensures
            control == (*self is ContextChip || *self == AgentToolbarItemKind::FileAttach),
    {
        match self {
            AgentToolbarItemKind::ContextChip(_) | AgentToolbarItemKind::FileAttach => true,
            _ => false,
        }
    }

    /// The footers the item may appear in.
    pub fn available_in(&self) -> (availability: ToolbarAvailability)
        ensures
            availability == availability_of(*self),
    {
        match self {
            AgentToolbarItemKind::ContextChip(_) | AgentToolbarItemKind::FileAttach => {
                ToolbarAvailability::Both
            },
            AgentToolbarItemKind::FileExplorer | AgentToolbarItemKind::RichInput => {
                ToolbarAvailability::CLIAgentOnly
            },
        }
    }

    /// The item's name in the configurator.
    pub fn display_label(&self) -> (label: &'static str)
        ensures
            label@ == match *self {
                AgentToolbarItemKind::ContextChip(_) => "Context Chip"@,
                AgentToolbarItemKind::FileAttach => "Attach File"@,
                AgentToolbarItemKind::FileExplorer => "File Explorer"@,
                AgentToolbarItemKind::RichInput => "Rich Input"@,
            },
    {
        match self {
            AgentToolbarItemKind::ContextChip(_) => "Context Chip",
            AgentToolbarItemKind::FileAttach => "Attach File",
            AgentToolbarItemKind::FileExplorer => "File Explorer",
            AgentToolbarItemKind::RichInput => "Rich Input",
        }
    }

    /// The item's icon: the chip's own for a chip.
    pub fn icon(&self) -> (icon: Option<Icon>)
        ensures
            icon == match *self {
                AgentToolbarItemKind::ContextChip(kind) => Some(chip_icon(kind)),
                AgentToolbarItemKind::FileAttach => Some(Icon::Plus),
                AgentToolbarItemKind::FileExplorer => Some(Icon::FileCopy),
                AgentToolbarItemKind::RichInput => Some(Icon::TextInput),
            },
    {
        match self {
            AgentToolbarItemKind::ContextChip(kind) => kind.udi_icon(),
            AgentToolbarItemKind::FileAttach => Some(Icon::Plus),
            AgentToolbarItemKind::FileExplorer => Some(Icon::FileCopy),
            AgentToolbarItemKind::RichInput => Some(Icon::TextInput),
        }
    }

    pub fn is_context_chip(&self) -> (chip: bool)
        ensures
            chip == (*self is ContextChip),
    {
        match self {
            AgentToolbarItemKind::ContextChip(_) => true,
            _ => false,
        }
    }

    /// The chip the item shows, if it is one.
    pub fn context_chip_kind(&self) -> (kind: Option<&ContextChipKind>)
        ensures
            kind == match *self {
                AgentToolbarItemKind::ContextChip(k) => Some(&k),
                _ => None,
            },
    {
        match self {
            AgentToolbarItemKind::ContextChip(kind) => Some(kind),
            _ => None,
        }
    }

    /// Default left-side items for the agent view footer.
    pub fn default_left() -> (items: Vec<Self>)
        ensures
            items@ == default_left_items(),
    {
        let mut items = Vec::new();
        items.push(AgentToolbarItemKind::ContextChip(ContextChipKind::Ssh));
        items.push(AgentToolbarItemKind::ContextChip(ContextChipKind::WorkingDirectory));
        items.push(AgentToolbarItemKind::ContextChip(ContextChipKind::ShellGitBranch));
        items.push(AgentToolbarItemKind::ContextChip(ContextChipKind::GitDiffStats));
        items.push(AgentToolbarItemKind::ContextChip(ContextChipKind::GithubPullRequest));
        assert(items@ =~= default_left_items());
        items
    }

    /// Default right-side items for the agent view footer.
    pub fn default_right() -> (items: Vec<Self>)
        ensures
            items@ == default_right_items(),
    {
        let mut items = Vec::new();
        items.push(AgentToolbarItemKind::FileAttach);
        assert(items@ =~= default_right_items());
        items
    }

    /// All items available for the agent view footer configurator.
    pub fn all_available() -> (items: Vec<Self>)
        ensures
            items@ == all_available_items(),
    {
        let mut items = chip_items(agent_footer_available_chips());
        items.push(AgentToolbarItemKind::FileAttach);
        items
    }

    /// Default left-side items for the CLI agent footer.
    pub fn cli_default_left() -> (items: Vec<Self>)
        ensures
            items@ == cli_default_left_items(),
    {
        let mut items = Vec::new();
        items.push(AgentToolbarItemKind::FileAttach);
        items.push(AgentToolbarItemKind::ContextChip(ContextChipKind::GitDiffStats));
        items.push(AgentToolbarItemKind::FileExplorer);
        items.push(AgentToolbarItemKind::RichInput);
        assert(items@ =~= cli_default_left_items());
        items
    }

    /// Default right-side items for the CLI agent footer.
    pub fn cli_default_right() -> (items: Vec<Self>)
        ensures
            items@ == cli_default_right_items(),
    {
        let mut items = Vec::new();
        items.push(AgentToolbarItemKind::ContextChip(ContextChipKind::WorkingDirectory));
        items.push(AgentToolbarItemKind::ContextChip(ContextChipKind::ShellGitBranch));
        assert(items@ =~= cli_default_right_items());
        items
    }

    /// All items available for the CLI agent footer configurator.
    pub fn all_available_for_cli_input() -> (items: Vec<Self>)
        ensures
            items@ == all_available_cli_items(),
    {
        let mut items = chip_items(available_chips());
        let ghost chips = items@;
        items.push(AgentToolbarItemKind::FileExplorer);
        items.push(AgentToolbarItemKind::RichInput);
        items.push(AgentToolbarItemKind::FileAttach);
        assert(items@ =~= all_available_cli_items());
        items
    }

    /// The default left and right items and the available items of the
    /// footer `mode` configures.
    pub fn defaults_for_mode(mode: AgentToolbarEditorMode) -> (lists: (Vec<Self>, Vec<Self>, Vec<Self>))
        ensures
            match mode {
                AgentToolbarEditorMode::AgentView => lists.0@ == default_left_items() && lists.1@
                    == default_right_items() && lists.2@ == all_available_items(),
                AgentToolbarEditorMode::CLIAgent => lists.0@ == cli_default_left_items() && lists.1@
                    == cli_default_right_items() && lists.2@ == all_available_cli_items(),
            },
    {
        match mode {
            AgentToolbarEditorMode::AgentView => (
                Self::default_left(),
                Self::default_right(),
                Self::all_available(),
            ),
            AgentToolbarEditorMode::CLIAgent => (
                Self::cli_default_left(),
                Self::cli_default_right(),
                Self::all_available_for_cli_input(),
            ),
        }
    }
}

impl From<ContextChipKind> for AgentToolbarItemKind {
    /// The toolbar item showing `kind`.
    fn from(kind: ContextChipKind) -> (item: Self) {
        AgentToolbarItemKind::ContextChip(kind)
    }
}

impl vstd::std_specs::convert::FromSpecImpl<ContextChipKind> for AgentToolbarItemKind {
    open spec fn obeys_from_spec() -> bool {
        true
    }

    open spec fn from_spec(kind: ContextChipKind) -> Self {
        AgentToolbarItemKind::ContextChip(kind)
    }
}

/// Every default and available item may appear in the footer it is listed
/// for: the agent view lists only items available to both footers.
pub proof fn law_defaults_fit_their_footer()
    ensures
        forall|i: int|
            0 <= i < all_available_items().len() ==> availability_of(#[trigger] all_available_items()[i])
                == ToolbarAvailability::Both,
        forall|i: int|
            0 <= i < default_left_items().len() ==> availability_of(#[trigger] default_left_items()[i])
                == ToolbarAvailability::Both,
        forall|i: int|
            0 <= i < default_right_items().len() ==> availability_of(#[trigger] default_right_items()[i])
                == ToolbarAvailability::Both,
{
    assert forall|i: int| 0 <= i < all_available_items().len() implies availability_of(
        #[trigger] all_available_items()[i],
    ) == ToolbarAvailability::Both by {
        if i < every_chip().len() {
            assert(all_available_items()[i] == AgentToolbarItemKind::ContextChip(every_chip()[i]));
        }
    }
}

} // verus!
