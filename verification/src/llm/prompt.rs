use vstd::prelude::*;
use crate::llm::message::{ChatMessage, Role, Turn};

verus! {

/// The standing instruction that leads every request.
pub const SYSTEM_PROMPT: &'static str =
    "You are miden-code, an AI coding assistant with file system and shell access capabilities.
You run in the terminal and help developers with coding tasks using your reasoning abilities.

Your capabilities include:
1. Answering programming questions with detailed explanations
2. Providing step-by-step reasoning for complex problems
3. Accessing the file system to read code and understand context
4. Running shell commands to help users (with their permission)
5. Correcting yourself when solutions have errors

When asked to perform a file system or shell operation:
- Always explain what you want to do and why
- Wait for explicit user permission before executing commands
- Show the output of commands and explain what it means

Follow these guidelines:
- Be concise but thorough in your explanations
- Use code examples when helpful
- Cite sources if you reference external information
- Focus on practical solutions to the user's problems
- Respect the user's time and privacy";

/// The turn that leads every request.
pub open spec fn instruction_turn() -> Turn {
    Turn { role: Role::System, content: SYSTEM_PROMPT@ }
}

/// What is sent to the model for a window that holds `turns`: the standing
/// instruction, then the turns of the window, oldest first.
pub open spec fn prompt_for(turns: Seq<Turn>) -> Seq<Turn> {
    seq![instruction_turn()] + turns
}

/// A request is never empty: it leads with the standing instruction, and what
/// follows is the window, turn for turn.
pub proof fn lemma_prompt_leads_with_instruction(turns: Seq<Turn>)
    ensures
        prompt_for(turns).len() == turns.len() + 1,
        prompt_for(turns)[0] == instruction_turn(),
        prompt_for(turns)[0].is_protected(),
        prompt_for(turns).skip(1) == turns,
{
}

/// The standing instruction that leads every request.
pub fn system_prompt() -> (prompt: String)
    ensures
        prompt@ == SYSTEM_PROMPT@,
{
    SYSTEM_PROMPT.to_owned()
}

/// The request for a conversation: the standing instruction, then `messages`
/// in their order.
pub fn create_prompt(messages: Vec<ChatMessage>) -> (prompt: Vec<ChatMessage>)
    ensures
        prompt.deep_view() == prompt_for(messages.deep_view()),
{
    let mut messages = messages;
    let mut prompt: Vec<ChatMessage> = Vec::new();
    prompt.push(ChatMessage::system(system_prompt()));
    prompt.append(&mut messages);
    prompt
}

} // verus!
