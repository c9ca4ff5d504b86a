use vstd::prelude::*;

verus! {

/// The naming options for a TV-show run: the show's title and which season
/// and episode the batch starts at. Collected interactively (or from saved
/// state) by the surrounding program before a run begins.
pub struct TVOptions {
    pub title: String,
    pub season: u32,
    pub episode: u32,
}

impl TVOptions {
    /// Step to the next episode, as each output file of a batch is named.
    pub fn next_episode(&mut self)
        requires
            old(self).episode < u32::MAX,
        ensures
            final(self).episode == old(self).episode + 1,
            final(self).title == old(self).title,
            final(self).season == old(self).season,
    {
        self.episode = self.episode + 1;
    }
}

} // verus!
