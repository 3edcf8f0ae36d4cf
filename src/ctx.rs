use vstd::prelude::*;
use vstd::string::*;

use crate::document::{Document, Value};
use crate::json_text::{parse_result, parse_document};
use crate::log::IslandLogger;

verus! {

/// The coarse state the world is in.
#[derive(Clone, Copy, Debug, PartialEq, Eq, Structural)]
pub enum WorldState {
    Editor,
    Menu,
    Gameplay,
}

/// The name a script sees for each world state.
pub open spec fn world_state_name(s: WorldState) -> Seq<char> {
    match s {
        WorldState::Editor => "Editor"@,
        WorldState::Menu => "Menu"@,
        WorldState::Gameplay => "Gameplay"@,
    }
}

/// The context handed to a script for one staged call. It answers queries
/// and queues the script's requests; the world applies them after the call.
#[derive(Debug)]
pub struct HighgroundCtx {
    pub world_state: WorldState,
    pub spawned_entities: Vec<Document>,
    pub logger: IslandLogger,
}

/// The models of a list of documents.
pub open spec fn models(ds: Seq<Document>) -> Seq<Value> {
    Seq::new(ds.len(), |i: int| ds[i].model())
}

impl HighgroundCtx {
    /// A fresh context: nothing queued, nothing logged.
    pub fn new(world_state: WorldState) -> (r: Self)
        ensures
            r.world_state == world_state,
            r.spawned_entities@.len() == 0,
            r.logger.text() == Seq::<char>::empty(),
    {
        HighgroundCtx { world_state, spawned_entities: Vec::new(), logger: IslandLogger::new() }
    }

    /// Log an info entry on behalf of the script.
    pub fn log_info(&mut self, log: &str)
        ensures
            final(self).logger.text() == old(self).logger.text() + "[INFO]: "@ + log@ + "\n"@,
            final(self).world_state == old(self).world_state,
            final(self).spawned_entities == old(self).spawned_entities,
    {
        self.logger.info(log);
    }

    /// Log a warning entry on behalf of the script.
    pub fn log_warn(&mut self, log: &str)
        ensures
            final(self).logger.text() == old(self).logger.text() + "[WARNING]: "@ + log@ + "\n"@,
            final(self).world_state == old(self).world_state,
            final(self).spawned_entities == old(self).spawned_entities,
    {
        self.logger.warn(log);
    }

    /// Log an error entry on behalf of the script.
    pub fn log_error(&mut self, log: &str)
        ensures
            final(self).logger.text() == old(self).logger.text() + "[ERROR]: "@ + log@ + "\n"@,
            final(self).world_state == old(self).world_state,
            final(self).spawned_entities == old(self).spawned_entities,
    {
        self.logger.error(log);
    }

    /// Queue a spawn request given as JSON text. Text that is not JSON is
    /// logged as an error and queues nothing.
    pub fn spawn_entity(&mut self, entity_input: &str)
        ensures
            final(self).world_state == old(self).world_state,
            match parse_result(entity_input@) {
                Some(e) => {
                    &&& models(final(self).spawned_entities@) == models(
                        old(self).spawned_entities@,
                    ).push(e)
                    &&& final(self).logger.text() == old(self).logger.text() + "[INFO]: "@
                        + "spawning: "@ + entity_input@ + "\n"@
                },
                None => {
                    &&& final(self).spawned_entities == old(self).spawned_entities
                    &&& final(self).logger.text() == old(self).logger.text() + "[ERROR]: "@
                        + "Failed to spawn entity: "@ + entity_input@ + "\n"@
                },
            },
    {
        match parse_document(entity_input) {
            Ok(entity) => {
                let line = String::from_str("spawning: ").concat(entity_input);
                self.logger.info(line.as_str());
                let ghost before = self.spawned_entities@;
                self.spawned_entities.push(entity);
                proof {
                    assert(models(self.spawned_entities@) =~= models(before).push(
                        parse_result(entity_input@)->Some_0,
                    ));
                }
                assert("[INFO]: "@ + ("spawning: "@ + entity_input@) + "\n"@ =~= "[INFO]: "@
                    + "spawning: "@ + entity_input@ + "\n"@);
            },
            Err(_) => {
                let line = String::from_str("Failed to spawn entity: ").concat(entity_input);
                self.logger.error(line.as_str());
                assert("[ERROR]: "@ + ("Failed to spawn entity: "@ + entity_input@) + "\n"@
                    =~= "[ERROR]: "@ + "Failed to spawn entity: "@ + entity_input@ + "\n"@);
            },
        }
    }

    /// The name of the world state, as scripts see it.
    pub fn world_state(&self) -> (r: String)
        ensures
            r@ == world_state_name(self.world_state),
    {
        match self.world_state {
            WorldState::Editor => String::from_str("Editor"),
            WorldState::Menu => String::from_str("Menu"),
            WorldState::Gameplay => String::from_str("Gameplay"),
        }
    }
}

} // verus!
