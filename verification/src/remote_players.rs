use vstd::prelude::*;

verus! {

/// A 256-bit account identity of the game server, held as two 128-bit halves.
#[derive(Clone, Copy, Debug, PartialEq, Eq, Hash, Structural)]
pub struct PlayerId {
    pub high: u128,
    pub low: u128,
}

/// A scene entity that shows another player, as the scene stood when the
/// frame began: `entity` is the entity's handle, `player` whom it shows.
#[derive(Clone, Copy, Debug, PartialEq, Eq, Structural)]
pub struct OtherPlayer {
    pub entity: u64,
    pub player: PlayerId,
}

/// What the scene does in answer to one row event. `update` is the position
/// of the update event in the frame's list of updates, whose position the
/// entity takes.
#[derive(Clone, Copy, Debug, PartialEq, Eq, Structural)]
pub enum SceneCommand {
    /// Move an existing entity to the position of the update.
    MoveTo { entity: u64, update: usize },
    /// Spawn a new entity for the player at the position of the update.
    Spawn { player: PlayerId, update: usize },
    /// Remove an entity from the scene.
    Despawn { entity: u64 },
}

/// `i` is the first entry of `others` that shows `player`.
pub open spec fn is_first_match(others: Seq<OtherPlayer>, player: PlayerId, i: int) -> bool {
    &&& 0 <= i < others.len()
    &&& others[i].player == player
    &&& forall|j: int| 0 <= j < i ==> others[j].player != player
}

/// Some entry of `others` shows `player`.
pub open spec fn knows(others: Seq<OtherPlayer>, player: PlayerId) -> bool {
    exists|i: int| 0 <= i < others.len() && others[i].player == player
}

/// The index of the first entry that shows `player`, as a search from the
/// front finds it.
pub open spec fn first_match(others: Seq<OtherPlayer>, player: PlayerId) -> Option<int> {
    if exists|i: int| is_first_match(others, player, i) {
        Some(choose|i: int| is_first_match(others, player, i))
    } else {
        None
    }
}

/// The command for the update event at position `update` that puts `player`
/// at a new position.
pub open spec fn spec_update_command(others: Seq<OtherPlayer>, player: PlayerId, update: usize) -> SceneCommand {
    match first_match(others, player) {
        Some(i) => SceneCommand::MoveTo { entity: others[i].entity, update },
        None => SceneCommand::Spawn { player, update },
    }
}

/// The command, if any, for an event that removes `player`.
pub open spec fn spec_delete_command(others: Seq<OtherPlayer>, player: PlayerId) -> Option<SceneCommand> {
    match first_match(others, player) {
        Some(i) => Some(SceneCommand::Despawn { entity: others[i].entity }),
        None => None,
    }
}

/// One command per update event, in order.
pub open spec fn spec_update_commands(others: Seq<OtherPlayer>, updates: Seq<PlayerId>) -> Seq<SceneCommand> {
    Seq::new(updates.len(), |k: int| spec_update_command(others, updates[k], k as usize))
}

/// The commands of the removal events, in order; a removal of a player that
/// the scene does not show gives none.
pub open spec fn spec_delete_commands(others: Seq<OtherPlayer>, deletes: Seq<PlayerId>) -> Seq<SceneCommand>
    decreases deletes.len(),
{
    if deletes.len() == 0 {
        Seq::empty()
    } else {
        let before = spec_delete_commands(others, deletes.drop_last());
        match spec_delete_command(others, deletes.last()) {
            Some(c) => before.push(c),
            None => before,
        }
    }
}

/// All commands of a frame: the updates first, then the removals. Every
/// lookup goes against the scene as it stood when the frame began, since the
/// scene applies spawns and removals only after the frame.
pub open spec fn spec_plan(
    others: Seq<OtherPlayer>,
    updates: Seq<PlayerId>,
    deletes: Seq<PlayerId>,
) -> Seq<SceneCommand> {
    spec_update_commands(others, updates) + spec_delete_commands(others, deletes)
}

/// A first match is the one that `first_match` names.
pub proof fn lemma_first_match_is(others: Seq<OtherPlayer>, player: PlayerId, i: int)
    requires
        is_first_match(others, player, i),
    ensures
        first_match(others, player) == Some(i),
{
    let c = choose|c: int| is_first_match(others, player, c);
    assert(is_first_match(others, player, c));
    if c < i {
        assert(others[c].player != player);
    } else if c > i {
        assert(others[i].player != player);
    }
}

/// Where some entry shows the player, there is a first one.
pub proof fn lemma_known_has_first_match(others: Seq<OtherPlayer>, player: PlayerId, i: int)
    requires
        0 <= i < others.len(),
        others[i].player == player,
    ensures
        first_match(others, player) is Some,
        is_first_match(others, player, first_match(others, player)->0),
    decreases i,
{
    if forall|j: int| 0 <= j < i ==> others[j].player != player {
        assert(is_first_match(others, player, i));
        lemma_first_match_is(others, player, i);
    } else {
        let j = choose|j: int| 0 <= j < i && others[j].player == player;
        lemma_known_has_first_match(others, player, j);
    }
}

/// An update of a player that the scene shows moves the first entity that
/// shows that player, and names the update's own position in the frame; an
/// update of any other player spawns a new entity for it. An update never
/// removes anything.
pub proof fn lemma_update_moves_known_player(others: Seq<OtherPlayer>, player: PlayerId, update: usize)
    ensures
        knows(others, player) <==> spec_update_command(others, player, update) is MoveTo,
        knows(others, player) ==> exists|i: int|
            0 <= i < others.len() && others[i].player == player
                && (forall|j: int| 0 <= j < i ==> others[j].player != player)
                && spec_update_command(others, player, update) == (SceneCommand::MoveTo {
                    entity: others[i].entity,
                    update,
                }),
        !knows(others, player) ==> spec_update_command(others, player, update) == (SceneCommand::Spawn {
            player,
            update,
        }),
{
    if knows(others, player) {
        let i = choose|i: int| 0 <= i < others.len() && others[i].player == player;
        lemma_known_has_first_match(others, player, i);
        let f = first_match(others, player)->0;
        assert(0 <= f < others.len() && others[f].player == player
            && (forall|j: int| 0 <= j < f ==> others[j].player != player));
    } else {
        if first_match(others, player) is Some {
            let f = first_match(others, player)->0;
            assert(is_first_match(others, player, f));
            assert(0 <= f < others.len() && others[f].player == player);
        }
    }
}

/// A removal of a player that the scene shows despawns an entity that shows
/// that player; a removal of any other player does nothing.
pub proof fn lemma_delete_despawns_known_player(others: Seq<OtherPlayer>, player: PlayerId)
    ensures
        knows(others, player) <==> spec_delete_command(others, player) is Some,
        knows(others, player) ==> exists|i: int|
            0 <= i < others.len() && others[i].player == player
                && (forall|j: int| 0 <= j < i ==> others[j].player != player)
                && spec_delete_command(others, player) == Some(SceneCommand::Despawn { entity: others[i].entity }),
{
    lemma_update_moves_known_player(others, player, 0);
}

/// The removals whose player the scene shows, in the order of the frame.
pub open spec fn known_removals(others: Seq<OtherPlayer>, deletes: Seq<PlayerId>) -> Seq<PlayerId> {
    deletes.filter(|p: PlayerId| knows(others, p))
}

/// `c` moves the first entity of the scene that shows `player` to the
/// position of the update event at position `update`.
pub open spec fn moves_first_entity_of(
    others: Seq<OtherPlayer>,
    c: SceneCommand,
    player: PlayerId,
    update: usize,
) -> bool {
    exists|i: int|
        0 <= i < others.len() && others[i].player == player
            && (forall|j: int| 0 <= j < i ==> others[j].player != player)
            && c == (SceneCommand::MoveTo { entity: others[i].entity, update })
}

/// `c` despawns the first entity of the scene that shows `player`.
pub open spec fn despawns_first_entity_of(others: Seq<OtherPlayer>, c: SceneCommand, player: PlayerId) -> bool {
    exists|i: int|
        0 <= i < others.len() && others[i].player == player
            && (forall|j: int| 0 <= j < i ==> others[j].player != player)
            && c == (SceneCommand::Despawn { entity: others[i].entity })
}

/// The removal commands follow the removals of shown players one for one and
/// in order: the k-th command despawns the first entity that shows the k-th
/// removed player that the scene shows, and there are no other commands.
pub proof fn lemma_delete_commands_follow_removals(others: Seq<OtherPlayer>, deletes: Seq<PlayerId>)
    ensures
        spec_delete_commands(others, deletes).len() == known_removals(others, deletes).len(),
        forall|k: int|
            0 <= k < known_removals(others, deletes).len() ==> despawns_first_entity_of(
                others,
                #[trigger] spec_delete_commands(others, deletes)[k],
                known_removals(others, deletes)[k],
            ),
    decreases deletes.len(),
{
    reveal(Seq::filter);
    if deletes.len() > 0 {
        let rest = deletes.drop_last();
        let p = deletes.last();
        lemma_delete_commands_follow_removals(others, rest);
        lemma_delete_despawns_known_player(others, p);
        let kn = known_removals(others, deletes);
        let kr = known_removals(others, rest);
        let all = spec_delete_commands(others, deletes);
        let before = spec_delete_commands(others, rest);
        assert(kn == (if knows(others, p) { kr.push(p) } else { kr }));
        assert forall|k: int| 0 <= k < kn.len() implies despawns_first_entity_of(others, #[trigger] all[k], kn[k]) by {
            if k < kr.len() {
                assert(kn[k] == kr[k]);
                assert(all[k] == before[k]);
                assert(despawns_first_entity_of(others, before[k], kr[k]));
            } else {
                assert(kn[k] == p);
                assert(all[k] == spec_delete_command(others, p)->0);
            }
        }
    } else {
        assert(known_removals(others, deletes) =~= Seq::<PlayerId>::empty());
    }
}

/// Every command that the removals of a frame give despawns an entity of
/// the scene that shows one of the removed players, and there is one such
/// command for each removal of a player that the scene shows.
pub proof fn lemma_deletes_only_despawn_removed_players(others: Seq<OtherPlayer>, deletes: Seq<PlayerId>)
    ensures
        forall|k: int|
            0 <= k < spec_delete_commands(others, deletes).len() ==> {
                let c = #[trigger] spec_delete_commands(others, deletes)[k];
                &&& c is Despawn
                &&& exists|i: int, j: int|
                    0 <= i < others.len() && 0 <= j < deletes.len() && others[i].entity == c->Despawn_entity
                        && others[i].player == deletes[j]
            },
        spec_delete_commands(others, deletes).len() == deletes.filter(|p: PlayerId| knows(others, p)).len(),
    decreases deletes.len(),
{
    if deletes.len() > 0 {
        let rest = deletes.drop_last();
        let p = deletes.last();
        lemma_deletes_only_despawn_removed_players(others, rest);
        lemma_delete_despawns_known_player(others, p);
        reveal(Seq::filter);
        let before = spec_delete_commands(others, rest);
        let all = spec_delete_commands(others, deletes);
        assert forall|k: int| 0 <= k < all.len() implies {
            let c = #[trigger] all[k];
            &&& c is Despawn
            &&& exists|i: int, j: int|
                0 <= i < others.len() && 0 <= j < deletes.len() && others[i].entity == c->Despawn_entity
                    && others[i].player == deletes[j]
        } by {
            if k < before.len() {
                assert(all[k] == before[k]);
                let c = before[k];
                let (i, j) = choose|i: int, j: int|
                    0 <= i < others.len() && 0 <= j < rest.len() && others[i].entity == c->Despawn_entity
                        && others[i].player == rest[j];
                assert(deletes[j] == rest[j]);
            } else {
                let i = choose|i: int|
                    0 <= i < others.len() && others[i].player == p
                        && spec_delete_command(others, p) == Some(SceneCommand::Despawn { entity: others[i].entity });
                assert(deletes[deletes.len() - 1] == p);
            }
        }
    }
}

/// Shape of a frame's plan: one command per update, in the order of the
/// updates, then the commands of the removals.
pub proof fn lemma_plan_shape(others: Seq<OtherPlayer>, updates: Seq<PlayerId>, deletes: Seq<PlayerId>)
    ensures
        spec_plan(others, updates, deletes).len() == updates.len() + spec_delete_commands(others, deletes).len(),
        forall|k: int| 0 <= k < updates.len() ==> #[trigger] spec_plan(others, updates, deletes)[k]
            == spec_update_command(others, updates[k], k as usize),
        forall|k: int| 0 <= k < spec_delete_commands(others, deletes).len() ==>
            #[trigger] spec_plan(others, updates, deletes)[updates.len() + k]
            == spec_delete_commands(others, deletes)[k],
{
}

/// Rows about the player's own account are not forwarded to the scene: the
/// scene shows only the other players.
pub fn should_forward(own: PlayerId, row: PlayerId) -> (r: bool)
    ensures
        r == (own != row),
{
    !(own == row)
}

/// Searches the scene from the front for an entity that shows `player`.
pub fn find_other_player(others: &Vec<OtherPlayer>, player: PlayerId) -> (r: Option<usize>)
    ensures
        match r {
            Some(i) => first_match(others@, player) == Some(i as int),
            None => first_match(others@, player) is None,
        },
        r is Some <==> knows(others@, player),
        r matches Some(i) ==> i < others.len() && others@[i as int].player == player && (forall|j: int|
            0 <= j < i ==> others@[j].player != player),
        r is None ==> forall|j: int| 0 <= j < others.len() ==> others@[j].player != player,
{
    let mut i: usize = 0;
    while i < others.len()
        invariant
            i <= others.len(),
            forall|j: int| 0 <= j < i ==> others@[j].player != player,
        decreases others.len() - i,
    {
        if others[i].player == player {
            proof {
                assert(is_first_match(others@, player, i as int));
                lemma_first_match_is(others@, player, i as int);
            }
            return Some(i);
        }
        i = i + 1;
    }
    assert(!exists|k: int| is_first_match(others@, player, k));
    None
}

/// The command for the update event at position `update` of the frame.
pub fn update_command(others: &Vec<OtherPlayer>, player: PlayerId, update: usize) -> (c: SceneCommand)
    ensures
        c == spec_update_command(others@, player, update),
        knows(others@, player) ==> moves_first_entity_of(others@, c, player, update),
        !knows(others@, player) ==> c == (SceneCommand::Spawn { player, update }),
{
    proof {
        lemma_update_moves_known_player(others@, player, update);
    }
    match find_other_player(others, player) {
        Some(i) => SceneCommand::MoveTo { entity: others[i].entity, update },
        None => SceneCommand::Spawn { player, update },
    }
}

/// The command, if any, for an event that removes `player`.
pub fn delete_command(others: &Vec<OtherPlayer>, player: PlayerId) -> (c: Option<SceneCommand>)
    ensures
        c == spec_delete_command(others@, player),
        knows(others@, player) ==> (c matches Some(d) && despawns_first_entity_of(others@, d, player)),
        !knows(others@, player) ==> c is None,
{
    proof {
        lemma_delete_despawns_known_player(others@, player);
    }
    match find_other_player(others, player) {
        Some(i) => Some(SceneCommand::Despawn { entity: others[i].entity }),
        None => None,
    }
}

/// Turns one frame's row events into scene commands: each update moves the
/// entity that shows its player, or spawns one where there is none; each
/// removal despawns the entity that shows its player, if any.
pub fn plan_events(
    others: &Vec<OtherPlayer>,
    updates: &Vec<PlayerId>,
    deletes: &Vec<PlayerId>,
) -> (cmds: Vec<SceneCommand>)
    ensures
        cmds@ == spec_plan(others@, updates@, deletes@),
        cmds.len() == updates.len() + known_removals(others@, deletes@).len(),
        forall|k: int|
            0 <= k < updates.len() ==> {
                &&& knows(others@, updates@[k]) ==> moves_first_entity_of(
                    others@,
                    #[trigger] cmds@[k],
                    updates@[k],
                    k as usize,
                )
                &&& !knows(others@, updates@[k]) ==> cmds@[k] == (SceneCommand::Spawn {
                    player: updates@[k],
                    update: k as usize,
                })
            },
        forall|k: int|
            0 <= k < known_removals(others@, deletes@).len() ==> despawns_first_entity_of(
                others@,
                #[trigger] cmds@[updates.len() + k],
                known_removals(others@, deletes@)[k],
            ),
{
    let mut cmds: Vec<SceneCommand> = Vec::new();
    let mut k: usize = 0;
    while k < updates.len()
        invariant
            k <= updates.len(),
            cmds@ == spec_update_commands(others@, updates@.take(k as int)),
        decreases updates.len() - k,
    {
        let c = update_command(others, updates[k], k);
        cmds.push(c);
        k = k + 1;
        assert(cmds@ =~= spec_update_commands(others@, updates@.take(k as int)));
    }
    assert(updates@.take(updates.len() as int) =~= updates@);
    let ghost head = cmds@;
    let mut d: usize = 0;
    while d < deletes.len()
        invariant
            d <= deletes.len(),
            head == spec_update_commands(others@, updates@),
            cmds@ == head + spec_delete_commands(others@, deletes@.take(d as int)),
        decreases deletes.len() - d,
    {
        let ghost before = cmds@;
        let c = delete_command(others, deletes[d]);
        match c {
            Some(cmd) => {
                cmds.push(cmd);
            },
            None => {},
        }
        proof {
            let t = deletes@.take(d + 1);
            assert(t.drop_last() =~= deletes@.take(d as int));
            assert(t.last() == deletes@[d as int]);
        }
        d = d + 1;
        assert(cmds@ =~= head + spec_delete_commands(others@, deletes@.take(d as int)));
    }
    assert(deletes@.take(deletes.len() as int) =~= deletes@);
    proof {
        lemma_delete_commands_follow_removals(others@, deletes@);
        let dc = spec_delete_commands(others@, deletes@);
        let kn = known_removals(others@, deletes@);
        assert forall|k: int| 0 <= k < kn.len() implies despawns_first_entity_of(
            others@,
            #[trigger] cmds@[updates.len() + k],
            kn[k],
        ) by {
            assert(cmds@[updates.len() + k] == dc[k]);
        }
        assert forall|k: int| 0 <= k < updates.len() implies {
            &&& knows(others@, updates@[k]) ==> moves_first_entity_of(
                others@,
                #[trigger] cmds@[k],
                updates@[k],
                k as usize,
            )
            &&& !knows(others@, updates@[k]) ==> cmds@[k] == (SceneCommand::Spawn {
                player: updates@[k],
                update: k as usize,
            })
        } by {
            lemma_update_moves_known_player(others@, updates@[k], k as usize);
            assert(cmds@[k] == spec_update_command(others@, updates@[k], k as usize));
        }
    }
    cmds
}

} // verus!
