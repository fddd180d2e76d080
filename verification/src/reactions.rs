//! The reactions that stand for the candidate days, and what they count.

use vstd::prelude::*;

use crate::text::same_text;

verus! {

/// The number of reactions that stand for candidate days.
pub const MAX_REACTION_COUNT: usize = 20;

/// The reaction that stands for a candidate day, by its place in the list.
pub open spec fn emoji(i: int) -> Seq<char> {
    if i == 0 {
        "1️⃣"@
    } else if i == 1 {
        "2️⃣"@
    } else if i == 2 {
        "3️⃣"@
    } else if i == 3 {
        "4️⃣"@
    } else if i == 4 {
        "5️⃣"@
    } else if i == 5 {
        "6️⃣"@
    } else if i == 6 {
        "7️⃣"@
    } else if i == 7 {
        "8️⃣"@
    } else if i == 8 {
        "9️⃣"@
    } else if i == 9 {
        "🇦"@
    } else if i == 10 {
        "🇧"@
    } else if i == 11 {
        "🇨"@
    } else if i == 12 {
        "🇩"@
    } else if i == 13 {
        "🇪"@
    } else if i == 14 {
        "🇫"@
    } else if i == 15 {
        "🇬"@
    } else if i == 16 {
        "🇭"@
    } else if i == 17 {
        "🇮"@
    } else if i == 18 {
        "🇯"@
    } else {
        "🇰"@
    }
}

/// The reaction that stands for a candidate day, by its place in the list.
pub fn reaction_emoji(i: usize) -> (r: &'static str)
    requires
        i < MAX_REACTION_COUNT,
    ensures
        r@ == emoji(i as int),
{
    if i == 0 {
        "1️⃣"
    } else if i == 1 {
        "2️⃣"
    } else if i == 2 {
        "3️⃣"
    } else if i == 3 {
        "4️⃣"
    } else if i == 4 {
        "5️⃣"
    } else if i == 5 {
        "6️⃣"
    } else if i == 6 {
        "7️⃣"
    } else if i == 7 {
        "8️⃣"
    } else if i == 8 {
        "9️⃣"
    } else if i == 9 {
        "🇦"
    } else if i == 10 {
        "🇧"
    } else if i == 11 {
        "🇨"
    } else if i == 12 {
        "🇩"
    } else if i == 13 {
        "🇪"
    } else if i == 14 {
        "🇫"
    } else if i == 15 {
        "🇬"
    } else if i == 16 {
        "🇭"
    } else if i == 17 {
        "🇮"
    } else if i == 18 {
        "🇯"
    } else {
        "🇰"
    }
}

/// The first character of a reaction tells it from the others.
proof fn lemma_first_characters()
    ensures
        forall|i: int| 0 <= i < 9 ==> (#[trigger] emoji(i)).len() == 3 && emoji(i)[0] as int == 49 + i,
        forall|i: int|
            9 <= i < 20 ==> (#[trigger] emoji(i)).len() == 1 && emoji(i)[0] as int == 127453 + i,
{
    reveal_strlit("1️⃣");
    reveal_strlit("2️⃣");
    reveal_strlit("3️⃣");
    reveal_strlit("4️⃣");
    reveal_strlit("5️⃣");
    reveal_strlit("6️⃣");
    reveal_strlit("7️⃣");
    reveal_strlit("8️⃣");
    reveal_strlit("9️⃣");
    reveal_strlit("🇦");
    reveal_strlit("🇧");
    reveal_strlit("🇨");
    reveal_strlit("🇩");
    reveal_strlit("🇪");
    reveal_strlit("🇫");
    reveal_strlit("🇬");
    reveal_strlit("🇭");
    reveal_strlit("🇮");
    reveal_strlit("🇯");
    reveal_strlit("🇰");
    assert(emoji(0).len() == 3 && emoji(0)[0] as int == 49);
    assert(emoji(1).len() == 3 && emoji(1)[0] as int == 50);
    assert(emoji(2).len() == 3 && emoji(2)[0] as int == 51);
    assert(emoji(3).len() == 3 && emoji(3)[0] as int == 52);
    assert(emoji(4).len() == 3 && emoji(4)[0] as int == 53);
    assert(emoji(5).len() == 3 && emoji(5)[0] as int == 54);
    assert(emoji(6).len() == 3 && emoji(6)[0] as int == 55);
    assert(emoji(7).len() == 3 && emoji(7)[0] as int == 56);
    assert(emoji(8).len() == 3 && emoji(8)[0] as int == 57);
    assert(emoji(9).len() == 1 && emoji(9)[0] as int == 127462);
    assert(emoji(10).len() == 1 && emoji(10)[0] as int == 127463);
    assert(emoji(11).len() == 1 && emoji(11)[0] as int == 127464);
    assert(emoji(12).len() == 1 && emoji(12)[0] as int == 127465);
    assert(emoji(13).len() == 1 && emoji(13)[0] as int == 127466);
    assert(emoji(14).len() == 1 && emoji(14)[0] as int == 127467);
    assert(emoji(15).len() == 1 && emoji(15)[0] as int == 127468);
    assert(emoji(16).len() == 1 && emoji(16)[0] as int == 127469);
    assert(emoji(17).len() == 1 && emoji(17)[0] as int == 127470);
    assert(emoji(18).len() == 1 && emoji(18)[0] as int == 127471);
    assert(emoji(19).len() == 1 && emoji(19)[0] as int == 127472);
}

/// No two candidate days have the same reaction.
pub proof fn reactions_differ(i: int, j: int)
    requires
        0 <= i < MAX_REACTION_COUNT,
        0 <= j < MAX_REACTION_COUNT,
        i != j,
    ensures
        emoji(i) != emoji(j),
{
    lemma_first_characters();
}

/// The place of a reaction in the list, where it is there.
pub fn emoji_position(text: &str) -> (r: Option<usize>)
    ensures
        r matches Some(i) ==> i < MAX_REACTION_COUNT && text@ == emoji(i as int),
        r is None ==> forall|i: int| 0 <= i < MAX_REACTION_COUNT ==> text@ != #[trigger] emoji(i),
{
    let mut i: usize = 0;
    while i < MAX_REACTION_COUNT
        invariant
            forall|j: int| 0 <= j < i ==> text@ != #[trigger] emoji(j),
        decreases MAX_REACTION_COUNT - i,
    {
        if same_text(text, reaction_emoji(i)) {
            return Some(i);
        }
        i = i + 1;
    }
    None
}

/// A reaction under a message: its text, where it is not a custom picture, and
/// how many users gave it.
#[derive(Clone, Debug, PartialEq, Eq)]
pub struct Reaction {
    pub emoji: Option<String>,
    pub count: u64,
}

impl Reaction {
    /// Whether the reaction is the one with that text.
    pub open spec fn is_emoji(self, text: Seq<char>) -> bool {
        self.emoji matches Some(e) && e@ == text
    }

    /// The users that gave the reaction, without the bot itself.
    pub open spec fn votes(self) -> int {
        if self.count > 0 {
            self.count - 1
        } else {
            0
        }
    }
}

/// The votes for a reaction among those under a message. Where it is there
/// more than once, the last one counts.
pub open spec fn votes_for(reactions: Seq<Reaction>, text: Seq<char>) -> int
    decreases reactions.len(),
{
    if reactions.len() == 0 {
        0
    } else if reactions.last().is_emoji(text) {
        reactions.last().votes()
    } else {
        votes_for(reactions.drop_last(), text)
    }
}

/// The votes for the first `n` candidate days.
pub fn count_votes(reactions: &Vec<Reaction>, n: usize) -> (r: Vec<u64>)
    requires
        n <= MAX_REACTION_COUNT,
    ensures
        r.len() == n,
        forall|i: int| 0 <= i < n ==> #[trigger] r[i] == votes_for(reactions@, emoji(i)),
{
    let mut counts: Vec<u64> = Vec::new();
    let mut filled: usize = 0;
    proof {
        assert(reactions@.take(0) =~= Seq::<Reaction>::empty());
    }
    while filled < n
        invariant
            filled <= n,
            counts.len() == filled,
            forall|i: int| 0 <= i < filled ==> #[trigger] counts[i] == 0,
        decreases n - filled,
    {
        counts.push(0);
        filled = filled + 1;
    }
    let mut k: usize = 0;
    while k < reactions.len()
        invariant
            k <= reactions.len(),
            n <= MAX_REACTION_COUNT,
            counts.len() == n,
            forall|i: int|
                0 <= i < n ==> #[trigger] counts[i] == votes_for(
                    reactions@.take(k as int),
                    emoji(i),
                ),
        decreases reactions.len() - k,
    {
        let ghost earlier = counts@;
        proof {
            assert(reactions@.take(k + 1).drop_last() =~= reactions@.take(k as int));
            assert(reactions@.take(k + 1).last() == reactions@[k as int]);
        }
        if let Some(text) = &reactions[k].emoji {
            if let Some(index) = emoji_position(text.as_str()) {
                if index < n {
                    counts.set(index, reactions[k].count.saturating_sub(1));
                }
                proof {
                    assert forall|i: int| 0 <= i < n implies #[trigger] counts[i] == votes_for(
                        reactions@.take(k + 1),
                        emoji(i),
                    ) by {
                        if i != index {
                            reactions_differ(i, index as int);
                        }
                    }
                }
            }
        }
        assert forall|i: int| 0 <= i < n implies #[trigger] counts[i] == votes_for(
            reactions@.take(k + 1),
            emoji(i),
        ) by {
            assert(earlier[i] == votes_for(reactions@.take(k as int), emoji(i)));
        }
        k = k + 1;
    }
    assert(reactions@.take(reactions.len() as int) =~= reactions@);
    counts
}

/// Whether a candidate day wins: no day has more votes, and no later day has
/// as many.
pub open spec fn wins(counts: Seq<u64>, w: int) -> bool {
    &&& 0 <= w < counts.len()
    &&& forall|i: int| 0 <= i < counts.len() ==> #[trigger] counts[i] <= counts[w]
    &&& forall|i: int| w < i < counts.len() ==> #[trigger] counts[i] < counts[w]
}

/// The candidate day that wins, where there are any.
pub fn find_winner(counts: &Vec<u64>) -> (r: Option<usize>)
    ensures
        r is None <==> counts.len() == 0,
        r matches Some(w) ==> wins(counts@, w as int),
        r matches Some(w) ==> w < counts.len() && forall|i: int|
            0 <= i < counts.len() ==> #[trigger] counts[i] <= counts[w as int] && (i > w
                ==> counts[i] < counts[w as int]),
{
    if counts.len() == 0 {
        return None;
    }
    let mut best: usize = 0;
    let mut i: usize = 1;
    while i < counts.len()
        invariant
            best < i <= counts.len(),
            forall|j: int| 0 <= j < i ==> #[trigger] counts[j] <= counts[best as int],
            forall|j: int| best < j < i ==> #[trigger] counts[j] < counts[best as int],
        decreases counts.len() - i,
    {
        if counts[i] >= counts[best] {
            best = i;
        }
        i = i + 1;
    }
    Some(best)
}

/// No two candidate days win.
pub proof fn winner_is_unique(counts: Seq<u64>, a: int, b: int)
    requires
        wins(counts, a),
        wins(counts, b),
    ensures
        a == b,
{
    assert(counts[a] <= counts[b] && counts[b] <= counts[a]);
}

/// A candidate day that no user chose but the bot has no votes, and each
/// further user is one vote.
pub proof fn own_reaction_is_not_counted(reactions: Seq<Reaction>, r: Reaction, text: Seq<char>)
    requires
        r.is_emoji(text),
        r.count >= 1,
    ensures
        votes_for(reactions.push(r), text) == r.count - 1,
{
}

/// The reactions are the keycaps of the digits from one to nine, and behind them
/// the letters from A on as they stand for regions.
pub proof fn reactions_are_keycaps_and_letters(i: int)
    ensures
        0 <= i < 9 ==> emoji(i) == seq![(49 + i) as char, 65039int as char, 8419int as char],
        9 <= i < 20 ==> emoji(i) == seq![(127462 + i - 9) as char],
{
    lemma_first_characters();
    reveal_strlit("1️⃣");
    reveal_strlit("2️⃣");
    reveal_strlit("3️⃣");
    reveal_strlit("4️⃣");
    reveal_strlit("5️⃣");
    reveal_strlit("6️⃣");
    reveal_strlit("7️⃣");
    reveal_strlit("8️⃣");
    reveal_strlit("9️⃣");
    if 0 <= i < 9 {
        assert(emoji(i)[1] as int == 65039 && emoji(i)[2] as int == 8419);
        assert(emoji(i) =~= seq![(49 + i) as char, 65039int as char, 8419int as char]);
    } else if 9 <= i < 20 {
        assert(emoji(i) =~= seq![(127462 + i - 9) as char]);
    }
}

/// Wherever a reaction stands, and however many others there are, it counts: the
/// votes are the users that gave it but for one, which is the bot.
pub proof fn reactions_count_wherever_they_stand(reactions: Seq<Reaction>, text: Seq<char>, k: int)
    requires
        0 <= k < reactions.len(),
        reactions[k].emoji is Some,
        reactions[k].emoji->0@ == text,
        forall|j: int|
            k < j < reactions.len() ==> (#[trigger] reactions[j]).emoji is None
                || reactions[j].emoji->0@ != text,
    ensures
        reactions[k].count > 0 ==> votes_for(reactions, text) == reactions[k].count - 1,
        reactions[k].count == 0 ==> votes_for(reactions, text) == 0,
    decreases reactions.len(),
{
    if k < reactions.len() - 1 {
        assert(reactions[reactions.len() - 1].emoji is None || reactions[reactions.len()
            - 1].emoji->0@ != text);
        reactions_count_wherever_they_stand(reactions.drop_last(), text, k);
    }
}

/// Where nobody gave a reaction, and the bot did not, there are no votes.
pub proof fn reactions_that_are_missing_have_no_votes(reactions: Seq<Reaction>, text: Seq<char>)
    requires
        forall|j: int|
            0 <= j < reactions.len() ==> (#[trigger] reactions[j]).emoji is None
                || reactions[j].emoji->0@ != text,
    ensures
        votes_for(reactions, text) == 0,
    decreases reactions.len(),
{
    if reactions.len() > 0 {
        assert(reactions[reactions.len() - 1].emoji is None || reactions[reactions.len()
            - 1].emoji->0@ != text);
        reactions_that_are_missing_have_no_votes(reactions.drop_last(), text);
    }
}

/// A further reaction leaves the votes for the others as they were.
pub proof fn other_reactions_change_no_votes(reactions: Seq<Reaction>, r: Reaction, text: Seq<char>)
    requires
        r.emoji is None || r.emoji->0@ != text,
    ensures
        votes_for(reactions.push(r), text) == votes_for(reactions, text),
{
    assert(reactions.push(r).drop_last() =~= reactions);
}

/// The day with the most votes wins, and of several days with the most votes the
/// last one.
pub proof fn the_most_votes_win(counts: Seq<u64>, w: int)
    requires
        0 <= w < counts.len(),
    ensures
        wins(counts, w) <==> forall|i: int|
            0 <= i < counts.len() && i != w ==> {
                ||| #[trigger] counts[i] < counts[w]
                ||| counts[i] == counts[w] && i < w
            },
{
    if forall|i: int|
        0 <= i < counts.len() && i != w ==> {
            ||| #[trigger] counts[i] < counts[w]
            ||| counts[i] == counts[w] && i < w
        } {
        assert forall|i: int| 0 <= i < counts.len() implies #[trigger] counts[i] <= counts[w] by {
        }
    }
}

} // verus!
