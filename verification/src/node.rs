//! What an entry of the registry holds: a command, a subregistry or a link.

use vstd::prelude::*;
use vstd::string::*;
use vstd::utf8::*;
use crate::codec::{decode_pair, encode_pair, pair_decoding, pair_encoding, utf8_strict};
use crate::command::{command_saved, construct, constructed, CommandObject, CommandView, ConstructError};
use crate::config::{Cli, CliView};
use crate::text::str_eq;

verus! {

/// The type tag of a subregistry node.
pub const SUBREG_ID: &'static str = "Subregistry";

/// The type tag of a link node.
pub const SYMLINK_ID: &'static str = "Symlink";

/// The payload of an entry.
#[derive(Debug)]
pub enum CmdNode {
    /// A command that can be run.
    Cmd(CommandObject),
    /// The rest of an invocation is looked up in the named registry.
    Subregistry(String),
    /// Stands for the command `name` of the registry `reg`.
    Symlink { reg: String, name: String },
}

/// A node as a mathematical value.
pub enum NodeView {
    Cmd(CommandView),
    Subregistry(Seq<char>),
    Symlink { reg: Seq<char>, name: Seq<char> },
}

impl View for CmdNode {
    type V = NodeView;

    open spec fn view(&self) -> NodeView {
        match self {
            CmdNode::Cmd(c) => NodeView::Cmd(c@),
            CmdNode::Subregistry(r) => NodeView::Subregistry(r@),
            CmdNode::Symlink { reg, name } => NodeView::Symlink { reg: reg@, name: name@ },
        }
    }
}

/// The bytes to store for a node; `None` where the stored bytes are to be left
/// as they are. A subregistry is stored as its name, a link as the MessagePack
/// pair of its target, or as no bytes where that encoding fails.
pub open spec fn node_saved(n: NodeView) -> Option<Seq<u8>> {
    match n {
        NodeView::Cmd(c) => command_saved(c),
        NodeView::Subregistry(r) => Some(encode_utf8(r)),
        NodeView::Symlink { reg, name } => Some(
            match pair_encoding(reg, name) {
                Some(bytes) => bytes,
                None => Seq::empty(),
            },
        ),
    }
}

/// The node that a type tag, stored bytes and the settings give.
pub open spec fn node_loaded(ty: Seq<char>, data: Seq<u8>, cli: CliView) -> Result<
    NodeView,
    ConstructError,
> {
    if ty == SUBREG_ID@ {
        if valid_utf8(data) {
            Ok(NodeView::Subregistry(decode_utf8(data)))
        } else {
            Err(ConstructError::InvalidText)
        }
    } else if ty == SYMLINK_ID@ {
        match pair_decoding(data) {
            Some((reg, name)) => Ok(NodeView::Symlink { reg, name }),
            None => Err(ConstructError::InvalidLink),
        }
    } else {
        Ok(NodeView::Cmd(constructed(ty, data, cli)))
    }
}

impl Clone for CmdNode {
    fn clone(&self) -> (r: CmdNode)
        ensures
            r@ == self@,
    {
        match self {
            CmdNode::Cmd(c) => CmdNode::Cmd(c.clone()),
            CmdNode::Subregistry(r) => CmdNode::Subregistry(r.clone()),
            CmdNode::Symlink { reg, name } => CmdNode::Symlink {
                reg: reg.clone(),
                name: name.clone(),
            },
        }
    }
}

impl CmdNode {
    /// The type tag of a subregistry node.
    pub const SUBREG_ID: &'static str = SUBREG_ID;

    /// The type tag of a link node.
    pub const SYMLINK_ID: &'static str = SYMLINK_ID;

    /// The bytes to store for the node.
    pub fn save(&self) -> (r: Option<Vec<u8>>)
        ensures
            match r {
                Some(bytes) => node_saved(self@) == Some(bytes@),
                None => node_saved(self@) is None,
            },
    {
        match self {
            CmdNode::Cmd(cmd) => cmd.save(),
            CmdNode::Subregistry(reg) => Some(reg.as_str().as_bytes_vec()),
            CmdNode::Symlink { reg, name } => {
                match encode_pair(reg, name) {
                    Some(bytes) => Some(bytes),
                    None => Some(Vec::new()),
                }
            },
        }
    }

    /// Builds the node that the type tag `ty`, the stored bytes `data` and the
    /// settings give.
    pub fn load(ty: &str, data: &[u8], cli: &Cli) -> (r: Result<CmdNode, ConstructError>)
        ensures
            match r {
                Ok(node) => node_loaded(ty@, data@, cli@) == Ok::<NodeView, ConstructError>(node@),
                Err(e) => node_loaded(ty@, data@, cli@) == Err::<NodeView, ConstructError>(e),
            },
    {
        if str_eq(ty, SUBREG_ID) {
            match utf8_strict(data) {
                Some(reg) => Ok(CmdNode::Subregistry(reg)),
                None => Err(ConstructError::InvalidText),
            }
        } else if str_eq(ty, SYMLINK_ID) {
            match decode_pair(data) {
                Some((reg, name)) => Ok(CmdNode::Symlink { reg, name }),
                None => Err(ConstructError::InvalidLink),
            }
        } else {
            match construct(ty, data, cli) {
                Ok(cmd) => Ok(CmdNode::Cmd(cmd)),
                Err(e) => Err(e),
            }
        }
    }

    /// The node that holds `cmd`.
    pub fn from(cmd: CommandObject) -> (r: CmdNode)
        ensures
            r@ == NodeView::Cmd(cmd@),
    {
        CmdNode::Cmd(cmd)
    }
}

/// A stored subregistry node is built again as the same node.
pub proof fn lemma_subregistry_round_trip(reg: Seq<char>, cli: CliView)
    ensures
        node_saved(NodeView::Subregistry(reg)) is Some,
        node_loaded(SUBREG_ID@, node_saved(NodeView::Subregistry(reg))->Some_0, cli) == Ok::<
            NodeView,
            ConstructError,
        >(NodeView::Subregistry(reg)),
{
    encode_utf8_valid_utf8(reg);
    encode_utf8_decode_utf8(reg);
}

} // verus!
