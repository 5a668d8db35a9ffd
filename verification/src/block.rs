//! The display unit of the bar: a text, an optional colour tier, a separator flag.

use vstd::prelude::*;

verus! {

/// Semantic colour classification of a block, independent of the concrete palette.
#[derive(Clone, Copy, Debug, PartialEq, Eq, Structural)]
pub enum ColorTier {
    Good,
    Bad,
    Unknown,
    Charging,
}

/// The palette: the display colour of each tier.
pub open spec fn color_code_text(tier: ColorTier) -> Seq<char> {
    match tier {
        ColorTier::Good => "#8fc029"@,
        ColorTier::Bad => "#dc2566"@,
        ColorTier::Unknown => "#9358fe"@,
        ColorTier::Charging => "#e7db75"@,
    }
}

/// The display colour of `tier`.
pub fn color_code(tier: ColorTier) -> (r: &'static str)
    ensures
        r@ == color_code_text(tier),
{
    match tier {
        ColorTier::Good => "#8fc029",
        ColorTier::Bad => "#dc2566",
        ColorTier::Unknown => "#9358fe",
        ColorTier::Charging => "#e7db75",
    }
}

/// One renderable segment of the status display.
#[derive(Debug, PartialEq, Eq)]
pub struct Block {
    pub full_text: String,
    pub color: Option<ColorTier>,
    pub separator: bool,
}

/// The mathematical content of a [`Block`].
pub ghost struct BlockView {
    pub full_text: Seq<char>,
    pub color: Option<ColorTier>,
    pub separator: bool,
}

impl View for Block {
    type V = BlockView;

    open spec fn view(&self) -> BlockView {
        BlockView { full_text: self.full_text@, color: self.color, separator: self.separator }
    }
}

/// The views of a sequence of blocks, in order.
pub open spec fn block_views(blocks: Seq<Block>) -> Seq<BlockView> {
    blocks.map_values(|b: Block| b@)
}

/// The views of a sequence with one more block are the views of the sequence
/// with the view of the block after them.
pub proof fn lemma_views_push(blocks: Seq<Block>, block: Block)
    ensures
        block_views(blocks.push(block)) == block_views(blocks).push(block@),
{
    assert(block_views(blocks.push(block)) =~= block_views(blocks).push(block@));
}

/// The views of two sequences joined are the views of each, joined.
pub proof fn lemma_views_concat(first: Seq<Block>, second: Seq<Block>)
    ensures
        block_views(first + second) == block_views(first) + block_views(second),
{
    assert(block_views(first + second) =~= block_views(first) + block_views(second));
}

/// A block without separator, as every classifier produces.
pub open spec fn plain_block(text: Seq<char>, color: Option<ColorTier>) -> BlockView {
    BlockView { full_text: text, color, separator: false }
}

impl Clone for Block {
    fn clone(&self) -> (r: Self)
        ensures
            r@ == self@,
    {
        Block { full_text: self.full_text.clone(), color: self.color, separator: self.separator }
    }
}

impl Block {
    /// Builds a block without separator.
    pub fn plain(text: String, color: Option<ColorTier>) -> (r: Block)
        ensures
            r@ == plain_block(text@, color),
    {
        Block { full_text: text, color, separator: false }
    }
}

} // verus!
