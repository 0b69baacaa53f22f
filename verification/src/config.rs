use vstd::prelude::*;

verus! {

/// Relative path of the rendered chart, in the current working directory.
pub fn out_file_name() -> (r: &'static str)
    ensures
        r@ == "logscale-sample.svg"@,
{
    "logscale-sample.svg"
}

/// Font family used for every text element of the chart.
pub fn font_name() -> (r: &'static str)
    ensures
        r@ == "sans-serif"@,
{
    "sans-serif"
}

/// Title drawn into the strip below the chart.
pub fn title_text() -> (r: &'static str)
    ensures
        r@ == "log-scale sample"@,
{
    "log-scale sample"
}

/// Caption drawn above the chart area.
pub fn caption_text() -> (r: &'static str)
    ensures
        r@ == "FREQUENCY RESPONSE"@,
{
    "FREQUENCY RESPONSE"
}

/// Description of the x axis.
pub fn x_desc_text() -> (r: &'static str)
    ensures
        r@ == "freq [Hz]"@,
{
    "freq [Hz]"
}

/// Description of the y axis.
pub fn y_desc_text() -> (r: &'static str)
    ensures
        r@ == "gain [dB]"@,
{
    "gain [dB]"
}

/// Confirmation printed once the chart has been written.
pub fn confirmation_message() -> (r: &'static str)
    ensures
        r@ == "Result has been saved to logscale-sample.svg"@,
{
    "Result has been saved to logscale-sample.svg"
}

/// The confirmation message ends with the output file name: its tail,
/// from character 25 on, is exactly `out_file_name`'s text.
pub proof fn lemma_confirmation_names_out_file()
    ensures
        "Result has been saved to logscale-sample.svg"@.subrange(25, 44)
            == "logscale-sample.svg"@,
        "Result has been saved to logscale-sample.svg"@.len() == 44,
{
    reveal_strlit("Result has been saved to logscale-sample.svg");
    reveal_strlit("logscale-sample.svg");
    assert("Result has been saved to logscale-sample.svg"@.subrange(25, 44)
        =~= "logscale-sample.svg"@);
}

} // verus!
