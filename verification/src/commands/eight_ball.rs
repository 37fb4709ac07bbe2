//! The magic eight ball.

use crate::commands::{owned_args, Command, CommandError};
use crate::message::ChatMessage;
use crate::text::join_text;
use vstd::prelude::*;

verus! {

/// The moods of the ball's answers.
#[derive(Debug, Clone, Copy, PartialEq, Eq, Structural)]
pub enum ResponseType {
    Affirmative,
    Negative,
    Neutral,
    Uncertain,
}

impl View for ResponseType {
    type V = ResponseType;

    open spec fn view(&self) -> ResponseType {
        *self
    }
}

impl DeepView for ResponseType {
    type V = ResponseType;

    open spec fn deep_view(&self) -> ResponseType {
        *self
    }
}

/// A command that answers a question as a magic eight ball would.
pub struct EightBallCommand {
    responses: Vec<(ResponseType, Vec<String>)>,
}

impl View for EightBallCommand {
    type V = Seq<(ResponseType, Seq<Seq<char>>)>;

    closed spec fn view(&self) -> Seq<(ResponseType, Seq<Seq<char>>)> {
        self.responses.deep_view()
    }
}

/// The ball's answers, by mood.
pub open spec fn eight_ball_responses() -> Seq<(ResponseType, Seq<Seq<char>>)> {
    seq![
        (
            ResponseType::Affirmative,
            seq![
                "It is certain."@,
                "It is decidedly so."@,
                "Without a doubt."@,
                "Yes definitely."@,
                "You may rely on it."@,
                "As I see it, yes."@,
                "Most likely."@,
                "Outlook good."@,
                "Yes."@,
                "Signs point to yes."@,
            ],
        ),
        (
            ResponseType::Negative,
            seq![
                "Don't count on it."@,
                "My reply is no."@,
                "My sources say no."@,
                "Outlook not so good."@,
                "Very doubtful."@,
            ],
        ),
        (
            ResponseType::Neutral,
            seq![
                "Reply hazy, try again."@,
                "Ask again later."@,
                "Better not tell you now."@,
                "Cannot predict now."@,
                "Concentrate and ask again."@,
            ],
        ),
        (
            ResponseType::Uncertain,
            seq![
                "Maybe..."@,
                "I'm not sure about that."@,
                "The answer is unclear."@,
                "Could go either way."@,
                "The future is uncertain on this."@,
            ],
        ),
    ]
}

/// What the ball says when it has nothing to draw from.
pub open spec fn cloudy_response() -> Seq<char> {
    "The magic 8-ball is cloudy right now."@
}

/// What the ball says to a call without a question.
pub open spec fn question_prompt() -> Seq<char> {
    "Ask me a question and I shall reveal your fate!"@
}

/// `text` is an answer that the ball can give from `responses`: one of the
/// answers of one of the moods, or the cloudy one where there is no mood or a mood
/// without answers.
pub open spec fn is_answer_from(
    responses: Seq<(ResponseType, Seq<Seq<char>>)>,
    text: Seq<char>,
) -> bool {
    ||| responses.len() == 0 && text == cloudy_response()
    ||| exists|g: int|
        0 <= g < responses.len() && #[trigger] responses[g].1.len() == 0 && text
            == cloudy_response()
    ||| exists|g: int, i: int|
        0 <= g < responses.len() && 0 <= i < responses[g].1.len() && text
            == #[trigger] responses[g].1[i]
}

/// The sentence that carries the ball's answer to the one who asked.
pub open spec fn eight_ball_reply(
    sender_name: Seq<char>,
    args: Seq<Seq<char>>,
    response: Seq<char>,
) -> Seq<char> {
    "@"@ + sender_name + " asked: "@ + join_text(args, " "@) + " ðŸŽ± "@ + response
}

/// The answer that a draw gives; without one, the cloudy answer.
pub fn response_from(drawn: Option<&String>) -> (r: String)
    ensures
        r@ == match drawn {
            Some(text) => text@,
            None => cloudy_response(),
        },
{
    match drawn {
        Some(text) => text.clone(),
        None => String::from_str("The magic 8-ball is cloudy right now."),
    }
}

impl EightBallCommand {
    /// An eight ball with its usual answers.
    pub fn new() -> (r: Self)
        ensures
            r@ == eight_ball_responses(),
    {
        let mut responses: Vec<(ResponseType, Vec<String>)> = Vec::new();
        let affirmative = owned_args(
            &vec![
                "It is certain.",
                "It is decidedly so.",
                "Without a doubt.",
                "Yes definitely.",
                "You may rely on it.",
                "As I see it, yes.",
                "Most likely.",
                "Outlook good.",
                "Yes.",
                "Signs point to yes.",
            ],
        );
        assert(affirmative.deep_view() =~= eight_ball_responses()[0].1);
        responses.push((ResponseType::Affirmative, affirmative));
        let negative = owned_args(&vec![
                        "Don't count on it.",
                        "My reply is no.",
                        "My sources say no.",
                        "Outlook not so good.",
                        "Very doubtful.",
                    ]);
        assert(negative.deep_view() =~= eight_ball_responses()[1].1);
        responses.push((ResponseType::Negative, negative));
        let neutral = owned_args(&vec![
                        "Reply hazy, try again.",
                        "Ask again later.",
                        "Better not tell you now.",
                        "Cannot predict now.",
                        "Concentrate and ask again.",
                    ]);
        assert(neutral.deep_view() =~= eight_ball_responses()[2].1);
        responses.push((ResponseType::Neutral, neutral));
        let uncertain = owned_args(&vec![
                        "Maybe...",
                        "I'm not sure about that.",
                        "The answer is unclear.",
                        "Could go either way.",
                        "The future is uncertain on this.",
                    ]);
        assert(uncertain.deep_view() =~= eight_ball_responses()[3].1);
        responses.push((ResponseType::Uncertain, uncertain));
        assert(responses.deep_view() =~= eight_ball_responses());
        EightBallCommand { responses }
    }

    /// An answer drawn at random: first a mood, then one of its answers.
    pub fn get_random_response(&self, _question: &str) -> (r: String)
        ensures
            is_answer_from(self@, r@),
    {
        let group = crate::random::pick(&self.responses);
        match group {
            None => response_from(None),
            Some(entry) => {
                let ghost g = choose|g: int|
                    0 <= g < self.responses@.len() && self.responses@[g] == *entry;
                assert(self@[g].1 == entry.1.deep_view());
                let drawn = crate::random::pick(&entry.1);
                proof {
                    match drawn {
                        Some(text) => {
                            let i = choose|i: int| 0 <= i < entry.1@.len() && entry.1@[i] == *text;
                            assert(self@[g].1[i] == text@);
                        },
                        None => {
                            assert(self@[g].1.len() == 0);
                        },
                    }
                }
                response_from(drawn)
            },
        }
    }

    /// The answer to `question`.
    pub fn get_response(&self, question: &str) -> (r: String)
        ensures
            is_answer_from(self@, r@),
    {
        self.get_random_response(question)
    }

    /// The sentence that carries `response` to the sender of `msg`, who asked the
    /// question that `args` spell out.
    pub fn reply(msg: &ChatMessage, args: &Vec<String>, response: &str) -> (r: String)
        ensures
            r@ == eight_ball_reply(msg@.sender_name, args.deep_view(), response@),
    {
        let question = crate::text::join(args, " ");
        let mut out = crate::text::concat("@", msg.sender_name.as_str());
        out.append(" asked: ");
        out.append(question.as_str());
        out.append(" ðŸŽ± ");
        out.append(response);
        out
    }
}

impl Command for EightBallCommand {
    fn execute(&self, msg: &ChatMessage, args: Vec<&str>) -> (r: Result<
        Option<String>,
        CommandError,
    >)
        ensures
            r matches Ok(Some(text)) && if args@.len() == 0 {
                text@ == question_prompt()
            } else {
                exists|response: Seq<char>|
                    is_answer_from(self@, response) && text@ == eight_ball_reply(
                        msg@.sender_name,
                        args.deep_view(),
                        response,
                    )
            },
    {
        if args.len() == 0 {
            return Ok(Some(String::from_str("Ask me a question and I shall reveal your fate!")));
        }
        let owned = owned_args(&args);
        let question = crate::text::join(&owned, " ");
        let response = self.get_response(question.as_str());
        let text = EightBallCommand::reply(msg, &owned, response.as_str());
        Ok(Some(text))
    }

    fn help(&self) -> (r: &str)
        ensures
            r@ == "Ask the Magic 8-Ball a yes/no question. Usage: !8ball <question>"@,
    {
        "Ask the Magic 8-Ball a yes/no question. Usage: !8ball <question>"
    }
}

impl Default for EightBallCommand {
    fn default() -> (r: Self)
        ensures
            r@ == eight_ball_responses(),
    {
        EightBallCommand::new()
    }
}

} // verus!
