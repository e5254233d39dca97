//! Conversations: the per-level briefings, the boss taunt and the victory
//! debrief, and the small state machines that open and advance them.
//!
//! A briefing opens at the start of each level's intro. On a fresh entry it
//! waits for the player to press the confirm key; after a boss kill it first
//! waits for the next band to scroll in (ignoring keys), then for the key.
//! Each key press shows the next line; past the last line the conversation
//! hands over to its finishing phase.
use vstd::prelude::*;
use crate::common::{band_bottom, band_in_range, level_bottom_y};
use crate::state::Phase;

verus! {

/// Who speaks a line (each speaker has a portrait).
#[derive(Clone, Copy, Debug, PartialEq, Eq, Structural)]
pub enum Speaker {
    Captain,
    Pilot,
    Warlord,
}

impl Speaker {
    /// The name shown above the line.
    pub fn name(self) -> (r: &'static str)
        ensures
            self == Speaker::Captain ==> r@ == "CAPTAIN"@,
            self == Speaker::Pilot ==> r@ == "PILOT"@,
            self == Speaker::Warlord ==> r@ == "WARLORD"@,
    {
        match self {
            Speaker::Captain => "CAPTAIN",
            Speaker::Pilot => "PILOT",
            Speaker::Warlord => "WARLORD",
        }
    }
}

/// A single line of dialogue: who is talking and what they say.
#[derive(Clone, Copy, Debug)]
pub struct DialogueLine {
    pub speaker: Speaker,
    pub text: &'static str,
}

/// The game's conversations.
#[derive(Clone, Copy, Debug, PartialEq, Eq, Structural)]
pub enum Conversation {
    Briefing1,
    Briefing2,
    Briefing3,
    Briefing4,
    Briefing5,
    Victory,
    Taunt,
}

/// `l` is spoken by `speaker` and reads `text`.
pub open spec fn line_is(l: DialogueLine, speaker: Speaker, text: &str) -> bool {
    l.speaker == speaker && l.text@ == text@
}

/// The lines of each conversation, in order.
pub open spec fn script(c: Conversation, lines: Seq<DialogueLine>) -> bool {
    match c {
        Conversation::Briefing1 => {
            &&& lines.len() == 8
            &&& line_is(lines[0], Speaker::Captain, "Pilot, this is Captain Reyes. We've got a delicate little problem.")
            &&& line_is(lines[1], Speaker::Pilot, "Delicate's my middle name, Captain. Right after 'reckless'.")
            &&& line_is(lines[2], Speaker::Captain, "An enemy colony's dug into the belt ahead, bristling with guns.")
            &&& line_is(lines[3], Speaker::Pilot, "Sounds cozy. I'll bring a housewarming gift or twelve.")
            &&& line_is(lines[4], Speaker::Captain, "It's one fighter against a whole colony. You sure about this?")
            &&& line_is(lines[5], Speaker::Pilot, "I've flown into worse before breakfast. Call this dessert.")
            &&& line_is(lines[6], Speaker::Captain, "Their warlord bites back. Try to come home in one piece.")
            &&& line_is(lines[7], Speaker::Pilot, "One piece, one legend. Punching it. See you at debrief!")
        },
        Conversation::Briefing2 => {
            &&& lines.len() == 6
            &&& line_is(lines[0], Speaker::Captain, "One warlord down and you're still in one piece. Colour me impressed.")
            &&& line_is(lines[1], Speaker::Pilot, "Told you. Barely scratched the paint. Where to next?")
            &&& line_is(lines[2], Speaker::Captain, "Deeper in. The defenses run twice as thick from here on.")
            &&& line_is(lines[3], Speaker::Pilot, "Then I'll fly twice as sharp. Copy that.")
            &&& line_is(lines[4], Speaker::Captain, "This warlord watched the first one fall - expect a real fight.")
            &&& line_is(lines[5], Speaker::Pilot, "Angry I can work with. Punching it. Let's finish the job.")
        },
        Conversation::Briefing3 => {
            &&& lines.len() == 6
            &&& line_is(lines[0], Speaker::Captain, "Two down. Past this point is where their real strength begins.")
            &&& line_is(lines[1], Speaker::Pilot, "So the warm-up is over. Good - I was getting bored.")
            &&& line_is(lines[2], Speaker::Captain, "Their patrols run heavier here. Watch every corner of the sky.")
            &&& line_is(lines[3], Speaker::Pilot, "More of them just means more targets. I'll manage.")
            &&& line_is(lines[4], Speaker::Captain, "Steady, pilot. Overconfidence has buried better flyers than you.")
            &&& line_is(lines[5], Speaker::Pilot, "Noted. Punching it - carefully reckless, as always.")
        },
        Conversation::Briefing4 => {
            &&& lines.len() == 6
            &&& line_is(lines[0], Speaker::Captain, "This is their last line of defense before home ground.")
            &&& line_is(lines[1], Speaker::Pilot, "Last lines break like any other. I'll find a way through.")
            &&& line_is(lines[2], Speaker::Captain, "They'll throw everything they have left at you here.")
            &&& line_is(lines[3], Speaker::Pilot, "Good thing I never learned how to slow down.")
            &&& line_is(lines[4], Speaker::Captain, "Break through, and the end of this war is in sight. No pressure.")
            &&& line_is(lines[5], Speaker::Pilot, "No pressure taken. Punching it - knock knock.")
        },
        Conversation::Briefing5 => {
            &&& lines.len() == 6
            &&& line_is(lines[0], Speaker::Captain, "This is it, pilot. The last warlord's territory.")
            &&& line_is(lines[1], Speaker::Pilot, "Four sectors of practice for this. I almost feel ready.")
            &&& line_is(lines[2], Speaker::Captain, "Everything they have left stands between you and the end.")
            &&& line_is(lines[3], Speaker::Pilot, "Then I won't have to go looking for them. Efficient.")
            &&& line_is(lines[4], Speaker::Captain, "Finish this and the whole belt sleeps easy. Come back to us.")
            &&& line_is(lines[5], Speaker::Pilot, "One last run. Punching it - let's end this war.")
        },
        Conversation::Victory => {
            &&& lines.len() == 6
            &&& line_is(lines[0], Speaker::Captain, "Sensors confirm it - the last warlord is down. The belt is clear.")
            &&& line_is(lines[1], Speaker::Pilot, "Copy that. Five sectors dark, and the paint's still mostly on.")
            &&& line_is(lines[2], Speaker::Captain, "Five warlords, one fighter. They'll be telling this one for years.")
            &&& line_is(lines[3], Speaker::Pilot, "Just doing my job, Captain. Though I won't stop the songs.")
            &&& line_is(lines[4], Speaker::Captain, "Come on home, pilot. Debrief's on me - you've earned it.")
            &&& line_is(lines[5], Speaker::Pilot, "Setting course for home. This legend could use a nap.")
        },
        Conversation::Taunt => {
            &&& lines.len() == 4
            &&& line_is(lines[0], Speaker::Warlord, "So, a lone fighter dares to enter my sector...")
            &&& line_is(lines[1], Speaker::Pilot, "Your reign over this sector ends today.")
            &&& line_is(lines[2], Speaker::Warlord, "Bold words. Let us see if your guns can back them up!")
            &&& line_is(lines[3], Speaker::Pilot, "Weapons hot. Resuming combat.")
        },
    }
}

fn line(speaker: Speaker, text: &'static str) -> (l: DialogueLine)
    ensures
        l.speaker == speaker,
        l.text@ == text@,
{
    DialogueLine { speaker, text }
}

/// Level 1: Captain Reyes' mission briefing (captain speaks, pilot answers).
fn captain_conversation() -> (r: Vec<DialogueLine>)
    ensures
        script(Conversation::Briefing1, r@),
{
    let mut v: Vec<DialogueLine> = Vec::new();
    v.push(line(Speaker::Captain, "Pilot, this is Captain Reyes. We've got a delicate little problem."));
    v.push(line(Speaker::Pilot, "Delicate's my middle name, Captain. Right after 'reckless'."));
    v.push(line(Speaker::Captain, "An enemy colony's dug into the belt ahead, bristling with guns."));
    v.push(line(Speaker::Pilot, "Sounds cozy. I'll bring a housewarming gift or twelve."));
    v.push(line(Speaker::Captain, "It's one fighter against a whole colony. You sure about this?"));
    v.push(line(Speaker::Pilot, "I've flown into worse before breakfast. Call this dessert."));
    v.push(line(Speaker::Captain, "Their warlord bites back. Try to come home in one piece."));
    v.push(line(Speaker::Pilot, "One piece, one legend. Punching it. See you at debrief!"));
    v
}

/// Level 2: pressing on into the second colony after the first warlord falls.
fn second_wave_conversation() -> (r: Vec<DialogueLine>)
    ensures
        script(Conversation::Briefing2, r@),
{
    let mut v: Vec<DialogueLine> = Vec::new();
    v.push(line(Speaker::Captain, "One warlord down and you're still in one piece. Colour me impressed."));
    v.push(line(Speaker::Pilot, "Told you. Barely scratched the paint. Where to next?"));
    v.push(line(Speaker::Captain, "Deeper in. The defenses run twice as thick from here on."));
    v.push(line(Speaker::Pilot, "Then I'll fly twice as sharp. Copy that."));
    v.push(line(Speaker::Captain, "This warlord watched the first one fall - expect a real fight."));
    v.push(line(Speaker::Pilot, "Angry I can work with. Punching it. Let's finish the job."));
    v
}

/// Level 3: pushing into the middle of the enemy's territory.
fn third_sector_conversation() -> (r: Vec<DialogueLine>)
    ensures
        script(Conversation::Briefing3, r@),
{
    let mut v: Vec<DialogueLine> = Vec::new();
    v.push(line(Speaker::Captain, "Two down. Past this point is where their real strength begins."));
    v.push(line(Speaker::Pilot, "So the warm-up is over. Good - I was getting bored."));
    v.push(line(Speaker::Captain, "Their patrols run heavier here. Watch every corner of the sky."));
    v.push(line(Speaker::Pilot, "More of them just means more targets. I'll manage."));
    v.push(line(Speaker::Captain, "Steady, pilot. Overconfidence has buried better flyers than you."));
    v.push(line(Speaker::Pilot, "Noted. Punching it - carefully reckless, as always."));
    v
}

/// Level 4: breaking the last line of defense before the enemy's home ground.
fn fourth_sector_conversation() -> (r: Vec<DialogueLine>)
    ensures
        script(Conversation::Briefing4, r@),
{
    let mut v: Vec<DialogueLine> = Vec::new();
    v.push(line(Speaker::Captain, "This is their last line of defense before home ground."));
    v.push(line(Speaker::Pilot, "Last lines break like any other. I'll find a way through."));
    v.push(line(Speaker::Captain, "They'll throw everything they have left at you here."));
    v.push(line(Speaker::Pilot, "Good thing I never learned how to slow down."));
    v.push(line(Speaker::Captain, "Break through, and the end of this war is in sight. No pressure."));
    v.push(line(Speaker::Pilot, "No pressure taken. Punching it - knock knock."));
    v
}

/// Level 5: the final push into the last warlord's home sector.
fn final_sector_conversation() -> (r: Vec<DialogueLine>)
    ensures
        script(Conversation::Briefing5, r@),
{
    let mut v: Vec<DialogueLine> = Vec::new();
    v.push(line(Speaker::Captain, "This is it, pilot. The last warlord's territory."));
    v.push(line(Speaker::Pilot, "Four sectors of practice for this. I almost feel ready."));
    v.push(line(Speaker::Captain, "Everything they have left stands between you and the end."));
    v.push(line(Speaker::Pilot, "Then I won't have to go looking for them. Efficient."));
    v.push(line(Speaker::Captain, "Finish this and the whole belt sleeps easy. Come back to us."));
    v.push(line(Speaker::Pilot, "One last run. Punching it - let's end this war."));
    v
}

/// The post-victory debrief, shown after the last warlord falls.
fn victory_conversation() -> (r: Vec<DialogueLine>)
    ensures
        script(Conversation::Victory, r@),
{
    let mut v: Vec<DialogueLine> = Vec::new();
    v.push(line(Speaker::Captain, "Sensors confirm it - the last warlord is down. The belt is clear."));
    v.push(line(Speaker::Pilot, "Copy that. Five sectors dark, and the paint's still mostly on."));
    v.push(line(Speaker::Captain, "Five warlords, one fighter. They'll be telling this one for years."));
    v.push(line(Speaker::Pilot, "Just doing my job, Captain. Though I won't stop the songs."));
    v.push(line(Speaker::Captain, "Come on home, pilot. Debrief's on me - you've earned it."));
    v.push(line(Speaker::Pilot, "Setting course for home. This legend could use a nap."));
    v
}

/// The mid-game boss taunt (the warlord speaks, the pilot answers).
fn boss_conversation() -> (r: Vec<DialogueLine>)
    ensures
        script(Conversation::Taunt, r@),
{
    let mut v: Vec<DialogueLine> = Vec::new();
    v.push(line(Speaker::Warlord, "So, a lone fighter dares to enter my sector..."));
    v.push(line(Speaker::Pilot, "Your reign over this sector ends today."));
    v.push(line(Speaker::Warlord, "Bold words. Let us see if your guns can back them up!"));
    v.push(line(Speaker::Pilot, "Weapons hot. Resuming combat."));
    v
}

impl Conversation {
    /// The conversation's lines, in order.
    pub fn lines(self) -> (r: Vec<DialogueLine>)
        ensures
            script(self, r@),
    {
        match self {
            Conversation::Briefing1 => captain_conversation(),
            Conversation::Briefing2 => second_wave_conversation(),
            Conversation::Briefing3 => third_sector_conversation(),
            Conversation::Briefing4 => fourth_sector_conversation(),
            Conversation::Briefing5 => final_sector_conversation(),
            Conversation::Victory => victory_conversation(),
            Conversation::Taunt => boss_conversation(),
        }
    }
}

/// Which briefing a level (1-based) opens with: each of the first four has its
/// own, and every later level hears the final-sector one.
pub open spec fn intro_for(level: u32) -> Conversation {
    if level == 1 {
        Conversation::Briefing1
    } else if level == 2 {
        Conversation::Briefing2
    } else if level == 3 {
        Conversation::Briefing3
    } else if level == 4 {
        Conversation::Briefing4
    } else {
        Conversation::Briefing5
    }
}

/// The intro briefing for `level` (1-based).
pub fn level_intro(level: u32) -> (c: Conversation)
    ensures
        c == intro_for(level),
{
    match level {
        1 => Conversation::Briefing1,
        2 => Conversation::Briefing2,
        3 => Conversation::Briefing3,
        4 => Conversation::Briefing4,
        _ => Conversation::Briefing5,
    }
}

/// The conversation being shown: its lines, the line on screen, and the phase
/// to enter after the last line.
#[derive(Debug)]
pub struct ActiveDialogue {
    pub lines: Vec<DialogueLine>,
    pub index: usize,
    pub on_finish: Phase,
}

/// What a key press does to a conversation.
#[derive(Clone, Copy, Debug, PartialEq, Eq, Structural)]
pub enum DialogueStep {
    /// Show the line at this index.
    Show(usize),
    /// The conversation is over: enter this phase.
    Finish(Phase),
}

/// The conversation is on one of its lines.
pub open spec fn dialogue_wf(d: ActiveDialogue) -> bool {
    d.index < d.lines@.len()
}

impl ActiveDialogue {
    /// A conversation opening on its first line.
    pub fn open(c: Conversation, on_finish: Phase) -> (d: Self)
        ensures
            script(c, d.lines@),
            d.index == 0,
            d.on_finish == on_finish,
            dialogue_wf(d),
    {
        ActiveDialogue { lines: c.lines(), index: 0, on_finish }
    }

    /// The briefing that opens `level`'s intro; it hands over to combat.
    pub fn briefing(level: u32) -> (d: Self)
        ensures
            script(intro_for(level), d.lines@),
            d.index == 0,
            d.on_finish == Phase::Combat,
            dialogue_wf(d),
    {
        ActiveDialogue::open(level_intro(level), Phase::Combat)
    }

    /// The boss taunt, started during combat; it returns to combat.
    pub fn boss_taunt() -> (d: Self)
        ensures
            script(Conversation::Taunt, d.lines@),
            d.index == 0,
            d.on_finish == Phase::Combat,
            dialogue_wf(d),
    {
        ActiveDialogue::open(Conversation::Taunt, Phase::Combat)
    }

    /// The line on screen.
    pub fn current(&self) -> (l: DialogueLine)
        requires
            dialogue_wf(*self),
        ensures
            l == self.lines@[self.index as int],
    {
        self.lines[self.index]
    }

    /// A key press: move to the next line, or finish once past the last one.
    pub fn advance(&mut self) -> (s: DialogueStep)
        requires
            old(self).index < usize::MAX,
        ensures
            *final(self) == advanced(*old(self)),
            s == advance_step(*old(self)),
    {
        let n = self.lines.len();
        self.index = self.index + 1;
        if self.index >= n {
            DialogueStep::Finish(self.on_finish)
        } else {
            DialogueStep::Show(self.index)
        }
    }
}

/// The conversation after one key press: the same lines and finish, one
/// line further on.
pub open spec fn advanced(d: ActiveDialogue) -> ActiveDialogue {
    ActiveDialogue { lines: d.lines, index: (d.index + 1) as usize, on_finish: d.on_finish }
}

/// What one key press reports: the next line while there is one, else the
/// phase the conversation hands over to.
pub open spec fn advance_step(d: ActiveDialogue) -> DialogueStep {
    if d.index + 1 < d.lines@.len() {
        DialogueStep::Show((d.index + 1) as usize)
    } else {
        DialogueStep::Finish(d.on_finish)
    }
}

/// The conversation after `k` key presses.
pub open spec fn after_presses(d: ActiveDialogue, k: nat) -> ActiveDialogue
    decreases k,
{
    if k == 0 { d } else { advanced(after_presses(d, (k - 1) as nat)) }
}

/// The post-victory debrief; it ends at the title screen.
pub fn start_victory() -> (d: ActiveDialogue)
    ensures
        script(Conversation::Victory, d.lines@),
        d.index == 0,
        d.on_finish == Phase::Title,
        dialogue_wf(d),
{
    ActiveDialogue::open(Conversation::Victory, Phase::Title)
}

/// A conversation opened on its first line shows every line once, in order,
/// one per key press, and the press on its last line finishes it: after `k`
/// presses (`k` below the line count) it is on line `k` with its lines and
/// finish unchanged, a press from there shows line `k + 1` while there is
/// one, and the press on the last line hands over to `on_finish`.
pub proof fn lemma_conversation_runs_through(d: ActiveDialogue, k: nat)
    requires
        d.index == 0,
        k < d.lines@.len(),
    ensures
        after_presses(d, k).index == k,
        after_presses(d, k).lines == d.lines,
        after_presses(d, k).on_finish == d.on_finish,
        dialogue_wf(after_presses(d, k)),
        k + 1 < d.lines@.len() ==> advance_step(after_presses(d, k)) == DialogueStep::Show((k + 1) as usize),
        k + 1 == d.lines@.len() ==> advance_step(after_presses(d, k)) == DialogueStep::Finish(d.on_finish),
    decreases k,
{
    assert(d.lines@.len() == d.lines.len());
    if k > 0 {
        lemma_conversation_runs_through(d, (k - 1) as nat);
    }
}

/// A briefing waiting to open.
#[derive(Clone, Copy, Debug, PartialEq, Eq, Structural)]
pub enum PendingBriefing {
    /// Open on the next confirm key press.
    AwaitKey,
    /// Ignore keys until the new band has scrolled in, then await the key.
    AwaitScroll,
}

/// How far past the band boundary the camera must be before the post-boss
/// briefing arms its key wait (the palette dissolve finishes first).
pub const DISSOLVE_MARGIN: i64 = 40;

/// Arms the briefing when a level's intro begins: after a boss kill it waits
/// for the scroll, on a fresh entry for the key.
pub fn queue_intro(post_boss: bool) -> (p: PendingBriefing)
    ensures
        post_boss ==> p == PendingBriefing::AwaitScroll,
        !post_boss ==> p == PendingBriefing::AwaitKey,
{
    if post_boss {
        PendingBriefing::AwaitScroll
    } else {
        PendingBriefing::AwaitKey
    }
}

/// The camera y at which a post-boss briefing for `level` stops waiting for
/// the scroll: the margin past the bottom of the level's band.
pub fn briefing_arm_y(level: u32) -> (y: i64)
    requires
        band_in_range(if level == 0 { 0 } else { (level - 1) as u32 }),
    ensures
        y == band_bottom(if level == 0 { 0 } else { level - 1 }) + DISSOLVE_MARGIN,
{
    let l: u32 = if level == 0 { 0 } else { level - 1 };
    level_bottom_y(l) + DISSOLVE_MARGIN
}

impl PendingBriefing {
    /// One frame of waiting, given whether the confirm key was just pressed and
    /// whether the camera has settled past the arm line. Returns whether the
    /// briefing opens now. A briefing waiting for the scroll never opens on the
    /// frame the scroll settles; it switches to waiting for the key.
    pub fn poll(&mut self, pressed: bool, settled: bool) -> (open: bool)
        ensures
            *old(self) == PendingBriefing::AwaitKey ==> open == pressed && *final(self) == PendingBriefing::AwaitKey,
            *old(self) == PendingBriefing::AwaitScroll ==> !open,
            *old(self) == PendingBriefing::AwaitScroll && settled ==> *final(self) == PendingBriefing::AwaitKey,
            *old(self) == PendingBriefing::AwaitScroll && !settled ==> *final(self) == PendingBriefing::AwaitScroll,
    {
        match *self {
            PendingBriefing::AwaitKey => pressed,
            PendingBriefing::AwaitScroll => {
                if settled {
                    *self = PendingBriefing::AwaitKey;
                }
                false
            },
        }
    }
}

/// Where a conversation stands in the story: the briefings in the order the
/// sectors are reached (the first briefing is 1), the victory debrief after
/// them, and the taunt, which can come at any time, outside the order.
pub open spec fn story_position(c: Conversation) -> nat {
    match c {
        Conversation::Briefing1 => 1,
        Conversation::Briefing2 => 2,
        Conversation::Briefing3 => 3,
        Conversation::Briefing4 => 4,
        Conversation::Briefing5 => 5,
        Conversation::Victory => 6,
        Conversation::Taunt => 0,
    }
}

/// Level `n` opens with the `n`-th briefing of the story for the five
/// levels, so consecutive levels hear consecutive briefings; any other level
/// number hears the final-sector briefing.
pub proof fn lemma_briefings_follow_the_levels(level: u32)
    ensures
        1 <= level <= 5 ==> story_position(intro_for(level)) == level,
        1 <= level < 5 ==> story_position(intro_for((level + 1) as u32)) == story_position(intro_for(level)) + 1,
        (level == 0 || level > 5) ==> intro_for(level) == Conversation::Briefing5,
{
}

} // verus!
